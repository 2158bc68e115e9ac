//! Schemas: the property layouts that products and locations follow.

use vstd::prelude::*;

use super::Client;
use crate::error::ClientError;
use vstd::string::StringExecFns;

verus! {

/// The data type of a schema property.
pub enum DataType {
    Bytes,
    Boolean,
    Number,
    String,
    Enum,
    Struct,
    LatLong,
}

/// One property definition of a schema.
pub struct GridPropertyDefinition {
    pub name: String,
    pub schema_name: String,
    pub data_type: DataType,
    pub required: bool,
    pub description: String,
    pub number_exponent: i64,
    pub enum_options: Vec<String>,
    pub struct_properties: Vec<String>,
    pub service_id: Option<String>,
}

/// A schema record answered by the REST API.
pub struct GridSchema {
    pub name: String,
    pub description: String,
    pub owner: String,
    pub properties: Vec<GridPropertyDefinition>,
    pub service_id: Option<String>,
}

/// A client able to list and show schemas.
pub trait SchemaClient: Client {
    /// Shows one schema by name.
    fn get_schema(&self, name: String, service_id: Option<&str>) -> Result<GridSchema, ClientError>;

    /// Lists the schemas.
    fn list_schemas(&self, service_id: Option<&str>) -> Result<Vec<GridSchema>, ClientError>;
}

/// The route that lists schemas.
pub const SCHEMA_ROUTE: &'static str = "schema";

/// The route that shows one schema.
pub fn schema_route(name: &str) -> (r: String)
    ensures
        r@ == "schema/"@ + name@,
{
    "schema/".to_owned().concat(name)
}

} // verus!
