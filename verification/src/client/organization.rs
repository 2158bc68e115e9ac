//! Organizations: the parties that own records.

use vstd::prelude::*;

use super::Client;
use crate::error::ClientError;
use vstd::string::StringExecFns;

verus! {

/// An alternate identifier of an organization.
pub struct AlternateId {
    pub id_type: String,
    pub id: String,
}

/// One metadata entry of an organization.
pub struct OrganizationMetadata {
    pub key: String,
    pub value: String,
    pub service_id: Option<String>,
}

/// An organization record answered by the REST API.
pub struct Organization {
    pub org_id: String,
    pub name: String,
    pub locations: Vec<String>,
    pub alternate_ids: Vec<AlternateId>,
    pub metadata: Vec<OrganizationMetadata>,
    pub service_id: Option<String>,
}

/// A client able to list and show organizations.
pub trait OrganizationClient: Client {
    /// Shows one organization by its identifier.
    fn get_organization(&self, id: String, service_id: Option<&str>) -> Result<
        Organization,
        ClientError,
    >;

    /// Lists the organizations.
    fn list_organizations(&self, service_id: Option<&str>) -> Result<
        Vec<Organization>,
        ClientError,
    >;
}

/// The route that lists organizations.
pub const ORGANIZATION_ROUTE: &'static str = "organization";

/// The route that shows one organization.
pub fn organization_route(id: &str) -> (r: String)
    ensures
        r@ == "organization/"@ + id@,
{
    "organization/".to_owned().concat(id)
}

} // verus!
