//! The schema listing: slice shaping, nested struct properties, and the
//! error answers.

use grid_core::error::RestApiResponseError;
use grid_core::schemas::fetch_grid_schema;
use grid_core::schemas::list_grid_schemas;
use grid_core::schemas::make_definition_slices;
use grid_core::schemas::top_level_names;
use grid_core::schemas::GridPropertyDefinition;
use grid_core::schemas::GridPropertyDefinitionSlice;
use grid_core::schemas::GridSchema;
use grid_core::schemas::GridSchemaSlice;

fn definition(schema: &str, name: &str, children: &[&str]) -> GridPropertyDefinition {
    GridPropertyDefinition {
        name: name.to_string(),
        schema_name: schema.to_string(),
        data_type: if children.is_empty() { "STRING".to_string() } else { "STRUCT".to_string() },
        required: true,
        description: format!("property {}", name),
        number_exponent: 0,
        enum_options: vec![],
        struct_properties: children.iter().map(|c| c.to_string()).collect(),
        service_id: None,
    }
}

fn schema(name: &str) -> GridSchema {
    GridSchema {
        name: name.to_string(),
        description: format!("schema {}", name),
        owner: "org1".to_string(),
        service_id: None,
    }
}

#[test]
fn from_definition_keeps_fields_and_drops_members() {
    let d = definition("s", "weight", &[]);
    let slice = GridPropertyDefinitionSlice::from_definition(&d);
    assert_eq!(slice.name, "weight");
    assert_eq!(slice.schema_name, "s");
    assert_eq!(slice.data_type, "STRING");
    assert!(slice.required);
    assert_eq!(slice.number_exponent, 0);
    assert!(slice.struct_properties.is_empty());
}

#[test]
fn from_slices_nests_the_members() {
    let d = definition("s", "dim", &["w", "h"]);
    let members = vec![
        GridPropertyDefinitionSlice::from_definition(&definition("s", "w", &[])),
        GridPropertyDefinitionSlice::from_definition(&definition("s", "h", &[])),
    ];
    let slice = GridPropertyDefinitionSlice::from_slices(&d, members);
    assert_eq!(slice.name, "dim");
    assert_eq!(slice.struct_properties.len(), 2);
    assert_eq!(slice.struct_properties[0].name, "w");
    assert_eq!(slice.struct_properties[1].name, "h");
}

#[test]
fn from_schema_keeps_fields() {
    let s = schema("product");
    let slice = GridSchemaSlice::from_schema(&s, vec![]);
    assert_eq!(slice.name, "product");
    assert_eq!(slice.description, "schema product");
    assert_eq!(slice.owner, "org1");
    assert!(slice.properties.is_empty());
    assert!(slice.service_id.is_none());
}

#[test]
fn top_level_names_follow_table_order() {
    let table = vec![
        definition("a", "x", &[]),
        definition("b", "y", &[]),
        definition("a", "z", &[]),
    ];
    assert_eq!(top_level_names(&table, "a"), vec!["x".to_string(), "z".to_string()]);
    assert!(top_level_names(&table, "c").is_empty());
}

#[test]
fn struct_properties_resolve_recursively() {
    let table = vec![
        definition("s", "dim", &["w", "h"]),
        definition("s", "w", &[]),
        definition("s", "h", &[]),
    ];
    let names = vec!["dim".to_string()];
    let slices = make_definition_slices(&table, "s", &names).unwrap();
    assert_eq!(slices.len(), 1);
    assert_eq!(slices[0].name, "dim");
    let members: Vec<&str> =
        slices[0].struct_properties.iter().map(|m| m.name.as_str()).collect();
    assert_eq!(members, vec!["w", "h"]);
    assert!(slices[0].struct_properties[0].struct_properties.is_empty());
}

#[test]
fn missing_member_definition_is_an_error() {
    let table = vec![definition("s", "dim", &["w"])];
    let names = vec!["dim".to_string()];
    assert!(matches!(
        make_definition_slices(&table, "s", &names),
        Err(RestApiResponseError::DatabaseError(_))
    ));
}

#[test]
fn cyclic_definitions_are_an_error_not_a_hang() {
    let table = vec![
        definition("s", "a", &["b"]),
        definition("s", "b", &["a"]),
    ];
    let names = vec!["a".to_string()];
    assert!(matches!(
        make_definition_slices(&table, "s", &names),
        Err(RestApiResponseError::DatabaseError(_))
    ));
}

#[test]
fn listing_answers_every_schema_with_its_properties() {
    let schemas = vec![schema("product"), schema("location")];
    let table = vec![
        definition("product", "weight", &[]),
        definition("location", "dim", &["w", "h"]),
        definition("location", "w", &[]),
        definition("location", "h", &[]),
    ];
    let slices = list_grid_schemas(&schemas, &table).unwrap();
    assert_eq!(slices.len(), 2);
    assert_eq!(slices[0].name, "product");
    assert_eq!(slices[0].properties.len(), 1);
    assert_eq!(slices[0].properties[0].name, "weight");
    assert_eq!(slices[1].name, "location");
    assert_eq!(slices[1].properties.len(), 3);
    assert_eq!(slices[1].properties[0].name, "dim");
    assert_eq!(slices[1].properties[0].struct_properties.len(), 2);
}

#[test]
fn fetching_a_known_schema_answers_its_slice() {
    let schemas = vec![schema("product")];
    let table = vec![definition("product", "weight", &[])];
    let slice = fetch_grid_schema(&schemas, &table, "product").unwrap();
    assert_eq!(slice.name, "product");
    assert_eq!(slice.properties.len(), 1);
}

#[test]
fn fetching_an_unknown_schema_is_not_found() {
    let schemas = vec![schema("product")];
    let table: Vec<GridPropertyDefinition> = vec![];
    match fetch_grid_schema(&schemas, &table, "nope") {
        Err(RestApiResponseError::NotFoundError(m)) => {
            assert_eq!(m, "Could not find schema with name: nope");
        }
        other => panic!("expected a not-found error, got {:?}", other.map(|s| s.name)),
    }
}
