//! Products: the goods records describe.

use vstd::prelude::*;

use super::Client;
use crate::error::ClientError;
use vstd::string::StringExecFns;

verus! {

/// A product record answered by the REST API.
pub struct GridProduct {
    pub product_id: String,
    pub product_namespace: String,
    pub owner: String,
    pub properties: Vec<GridPropertyValue>,
}

/// One property of a product, carrying the value slot of its data type.
pub struct GridPropertyValue {
    pub name: String,
    pub data_type: String,
    pub bytes_value: Option<Vec<u8>>,
    pub boolean_value: Option<bool>,
    pub number_value: Option<i64>,
    pub string_value: Option<String>,
    pub enum_value: Option<u32>,
    pub struct_values: Option<Vec<String>>,
    pub lat_long_value: Option<LatLong>,
}

/// A latitude/longitude pair in millionths of a degree.
pub struct LatLong {
    pub latitude: i64,
    pub longitude: i64,
}

/// A client able to list and show products.
pub trait ProductClient: Client {
    /// Shows one product by its identifier.
    fn get_product(&self, product_id: String, service_id: Option<&str>) -> Result<
        GridProduct,
        ClientError,
    >;

    /// Lists the products of a service.
    fn list_products(&self, service_id: Option<&str>) -> Result<Vec<GridProduct>, ClientError>;
}

/// The route that lists products.
pub const PRODUCT_ROUTE: &'static str = "product";

/// The route that shows one product.
pub fn product_route(id: &str) -> (r: String)
    ensures
        r@ == "product/"@ + id@,
{
    "product/".to_owned().concat(id)
}

} // verus!
