//! Error types surfaced by the library's components.

use vstd::prelude::*;

verus! {

/// A fatal error raised while preparing the one-time contract bootstrap:
/// a malformed admin key, or a failure of the signing backend.
#[derive(Debug, Clone, PartialEq, Eq)]
pub enum SetupError {
    /// The configured admin private key could not be parsed.
    InvalidPrivateKey(String),
    /// The signing backend refused to produce a key or signature.
    SigningFailed(String),
    /// The running package version could not be parsed.
    InvalidVersion(String),
}

/// An error reported by the REST client.
#[derive(Debug, Clone, PartialEq, Eq)]
pub enum ClientError {
    /// The daemon answered with a non-success status or an unreadable body.
    DaemonError(String),
    /// The client itself failed before or after the exchange.
    InternalError(String),
}

/// An error answered by a REST route handler.
#[derive(Debug, Clone, PartialEq, Eq)]
pub enum RestApiResponseError {
    /// The requested record does not exist.
    NotFoundError(String),
    /// The backing store could not answer the query.
    DatabaseError(String),
}

/// An error raised by an organization store.
#[derive(Debug, Clone, PartialEq, Eq)]
pub enum OrganizationStoreError {
    /// The store's backing state could not be reached.
    StorageError(String),
    /// No organization matched the query.
    NotFoundError(String),
}

} // verus!
