//! Agents: the keys acting for an organization.

use vstd::prelude::*;

use super::Client;
use crate::error::ClientError;
use crate::text::KeyValue;
use vstd::string::StringExecFns;

verus! {

/// An agent record answered by the REST API.
pub struct Agent {
    pub public_key: String,
    pub org_id: String,
    pub active: bool,
    pub roles: Vec<String>,
    pub service_id: Option<String>,
    pub metadata: Vec<KeyValue>,
}

/// A client able to list and show agents.
pub trait AgentClient: Client {
    /// Shows one agent by its public key.
    fn get_agent(&self, id: String, service_id: Option<&str>) -> Result<Agent, ClientError>;

    /// Lists the agents.
    fn list_agents(&self, service_id: Option<&str>) -> Result<Vec<Agent>, ClientError>;
}

/// The route that lists agents.
pub const AGENT_ROUTE: &'static str = "agent";

/// The route that shows one agent.
pub fn agent_route(id: &str) -> (r: String)
    ensures
        r@ == "agent/"@ + id@,
{
    "agent/".to_owned().concat(id)
}

} // verus!
