//! Roles: named permission sets granted within an organization.

use vstd::prelude::*;

use super::Client;
use crate::error::ClientError;
use vstd::string::StringExecFns;

verus! {

/// A role record answered by the REST API.
pub struct GridRole {
    pub org_id: String,
    pub name: String,
    pub description: String,
    pub active: bool,
    pub permissions: Vec<String>,
    pub inherit_from: Vec<GridInheritFrom>,
    pub allowed_organizations: Vec<String>,
}

/// A role inherited from another organization's role.
pub struct GridInheritFrom {
    pub role_name: String,
    pub org_id: String,
}

/// A client able to list and show an organization's roles.
pub trait RoleClient: Client {
    /// Shows one role of an organization by name.
    fn get_role(&self, org_id: String, name: String, service_id: Option<&str>) -> Result<
        GridRole,
        ClientError,
    >;

    /// Lists the roles of an organization.
    fn list_roles(&self, org_id: String, service_id: Option<&str>) -> Result<
        Vec<GridRole>,
        ClientError,
    >;
}

/// The route that lists an organization's roles.
pub fn roles_route(org_id: &str) -> (r: String)
    ensures
        r@ == "role/"@ + org_id@,
{
    "role/".to_owned().concat(org_id)
}

/// The route that shows one role of an organization.
pub fn role_route(org_id: &str, name: &str) -> (r: String)
    ensures
        r@ == "role/"@ + org_id@ + "/"@ + name@,
{
    "role/".to_owned().concat(org_id).concat("/").concat(name)
}

} // verus!
