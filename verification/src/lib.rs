//! Core logic of a supply-chain ledger daemon: leader election among a fixed
//! admin-key list, construction of the ordered transaction batch that
//! registers the smart contracts and namespace permissions, the bounded
//! polling that follows a batch submission, and the pure parts of the REST
//! client and stores.

pub mod bootstrap;
pub mod client;
pub mod error;
pub mod leader;
pub mod org_store;
pub mod schemas;
pub mod signing;
pub mod submit;
pub mod text;
pub mod version;
