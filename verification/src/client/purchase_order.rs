//! Purchase orders: the trading documents exchanged between organizations.

use vstd::prelude::*;

use super::Client;
use crate::error::ClientError;

verus! {

/// A purchase-order record answered by the REST API.
pub struct PurchaseOrder {
    pub org_id: String,
    pub uuid: String,
    pub workflow_status: String,
    pub is_closed: bool,
    pub accepted_version_id: Option<String>,
    pub versions: Vec<PurchaseOrderVersion>,
    pub created_at: u64,
}

/// One version of a purchase order.
pub struct PurchaseOrderVersion {
    pub version_id: String,
    pub workflow_status: String,
    pub is_draft: bool,
    pub current_revision_id: u64,
    pub revisions: Vec<PurchaseOrderRevision>,
}

/// One revision of a purchase-order version.
pub struct PurchaseOrderRevision {
    pub revision_id: u64,
    pub order_xml_v3_4: String,
    pub submitter: String,
    pub created_at: u64,
}

/// A client able to list and show purchase orders, their versions and their
/// revisions.
pub trait PurchaseOrderClient: Client {
    /// Shows the purchase order with the given identifier.
    fn get_purchase_order(&self, id: String) -> Result<Option<PurchaseOrder>, ClientError>;

    /// Shows one version of the purchase order with the given identifier.
    fn get_purchase_order_version(&self, id: String, version_id: String) -> Result<
        Option<PurchaseOrderVersion>,
        ClientError,
    >;

    /// Shows one revision of a purchase-order version.
    fn get_purchase_order_revision(
        &self,
        id: String,
        version_id: String,
        revision_id: String,
    ) -> Result<Option<PurchaseOrderRevision>, ClientError>;

    /// Lists the purchase orders that pass a filter.
    fn list_purchase_orders(&self, filter: Option<&str>) -> Result<Vec<PurchaseOrder>, ClientError>;

    /// Lists the versions of one purchase order.
    fn list_purchase_order_versions(&self, id: String, filter: Option<&str>) -> Result<
        Vec<PurchaseOrderVersion>,
        ClientError,
    >;

    /// Lists the revisions of one purchase-order version.
    fn list_purchase_order_revisions(
        &self,
        id: String,
        version_id: String,
        filter: Option<&str>,
    ) -> Result<Vec<PurchaseOrderRevision>, ClientError>;
}

} // verus!
