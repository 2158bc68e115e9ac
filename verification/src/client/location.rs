//! Locations: the physical places records refer to.

use vstd::prelude::*;

use super::schema::DataType;
use super::Client;
use crate::error::ClientError;
use vstd::string::StringExecFns;

verus! {

/// A location record answered by the REST API.
pub struct Location {
    pub location_id: String,
    pub location_namespace: String,
    pub owner: String,
    pub properties: Vec<LocationPropertyValue>,
    pub service_id: Option<String>,
}

/// One property of a location, carrying the value slot of its data type.
pub struct LocationPropertyValue {
    pub name: String,
    pub data_type: DataType,
    pub service_id: Option<String>,
    pub bytes_value: Option<Vec<u8>>,
    pub boolean_value: Option<bool>,
    pub number_value: Option<i64>,
    pub string_value: Option<String>,
    pub enum_value: Option<i32>,
    pub struct_values: Option<Vec<String>>,
    pub lat_long_value: Option<LatLong>,
}

/// A latitude/longitude pair in millionths of a degree.
pub struct LatLong {
    pub latitude: i64,
    pub longitude: i64,
}

/// A client able to list and show locations.
pub trait LocationClient: Client {
    /// Shows one location by its identifier.
    fn get_location(&self, id: String, service_id: Option<&str>) -> Result<Location, ClientError>;

    /// Lists the locations.
    fn list_locations(&self, service_id: Option<&str>) -> Result<Vec<Location>, ClientError>;
}

/// The route that lists locations.
pub const LOCATION_ROUTE: &'static str = "location";

/// The route that shows one location.
pub fn location_route(id: &str) -> (r: String)
    ensures
        r@ == "location/"@ + id@,
{
    "location/".to_owned().concat(id)
}

} // verus!
