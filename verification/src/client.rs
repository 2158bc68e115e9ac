//! Traits and data for interacting with the daemon's REST API.

use vstd::prelude::*;

pub mod agent;
pub mod fetch_methods;
pub mod location;
pub mod organization;
pub mod product;
pub mod purchase_order;
pub mod role;
pub mod schema;

use crate::error::ClientError;
use crate::submit::ReqwestClient;

verus! {

/// A client able to submit transaction batches to the daemon.
pub trait Client {
    /// Submits a serialized batch list, waiting up to `wait` seconds for the
    /// transactions to resolve.
    fn post_batches(&self, wait: u64, batch_list: &Vec<u8>, service_id: Option<&str>) -> Result<
        (),
        ClientError,
    >;
}

/// Yields clients for the entity listings of the REST API, each bound to a
/// base URL.
pub trait ClientFactory {
    /// A client for listing and showing agents.
    fn agent_client(url: String) -> (r: ReqwestClient)
        ensures
            r.url == url,
    ;

    /// A client for listing and showing schemas.
    fn schema_client(url: String) -> (r: ReqwestClient)
        ensures
            r.url == url,
    ;

    /// A client for listing and showing roles.
    fn role_client(url: String) -> (r: ReqwestClient)
        ensures
            r.url == url,
    ;

    /// A client for listing and showing organizations.
    fn organization_client(url: String) -> (r: ReqwestClient)
        ensures
            r.url == url,
    ;

    /// A client for listing and showing locations.
    fn location_client(url: String) -> (r: ReqwestClient)
        ensures
            r.url == url,
    ;

    /// A client for listing and showing products.
    fn product_client(url: String) -> (r: ReqwestClient)
        ensures
            r.url == url,
    ;

    /// A client for listing and showing purchase orders, their versions and
    /// their revisions.
    fn purchase_order_client(url: String) -> (r: ReqwestClient)
        ensures
            r.url == url,
    ;
}

/// The factory handing out HTTP-backed clients.
pub struct HttpClientFactory {}

impl ClientFactory for HttpClientFactory {
    fn agent_client(url: String) -> (r: ReqwestClient) {
        ReqwestClient::new(url)
    }

    fn schema_client(url: String) -> (r: ReqwestClient) {
        ReqwestClient::new(url)
    }

    fn role_client(url: String) -> (r: ReqwestClient) {
        ReqwestClient::new(url)
    }

    fn organization_client(url: String) -> (r: ReqwestClient) {
        ReqwestClient::new(url)
    }

    fn location_client(url: String) -> (r: ReqwestClient) {
        ReqwestClient::new(url)
    }

    fn product_client(url: String) -> (r: ReqwestClient) {
        ReqwestClient::new(url)
    }

    fn purchase_order_client(url: String) -> (r: ReqwestClient) {
        ReqwestClient::new(url)
    }
}

} // verus!
