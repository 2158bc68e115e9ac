//! The in-memory organization store.

use grid_core::error::OrganizationStoreError;
use grid_core::org_store::MemoryOrganizationStore;
use grid_core::org_store::Organization;

fn org(id: &str, name: &str, service_id: Option<&str>) -> Organization {
    Organization {
        org_id: id.to_string(),
        name: name.to_string(),
        address: "1 Main St".to_string(),
        metadata: vec![],
        start_commit_num: 0,
        end_commit_num: 9,
        service_id: service_id.map(|s| s.to_string()),
    }
}

#[test]
fn a_new_store_lists_nothing() {
    let store = MemoryOrganizationStore::new();
    assert!(store.list_organizations(None).unwrap().is_empty());
}

#[test]
fn added_organizations_are_listed_in_order() {
    let mut store = MemoryOrganizationStore::new();
    store
        .add_organizations(vec![org("o1", "Alpha", None), org("o2", "Beta", None)])
        .unwrap();
    let listed = store.list_organizations(None).unwrap();
    assert_eq!(listed.len(), 2);
    assert_eq!(listed[0].org_id, "o1");
    assert_eq!(listed[1].org_id, "o2");
}

#[test]
fn adding_an_existing_id_replaces_the_row() {
    let mut store = MemoryOrganizationStore::new();
    store.add_organizations(vec![org("o1", "Alpha", None)]).unwrap();
    store.add_organizations(vec![org("o1", "Alpha 2", None)]).unwrap();
    let listed = store.list_organizations(None).unwrap();
    assert_eq!(listed.len(), 1);
    assert_eq!(listed[0].name, "Alpha 2");
}

#[test]
fn listing_filters_by_service_id() {
    let mut store = MemoryOrganizationStore::new();
    store
        .add_organizations(vec![
            org("o1", "Alpha", Some("svc-1")),
            org("o2", "Beta", None),
            org("o3", "Gamma", Some("svc-1")),
        ])
        .unwrap();
    let listed = store.list_organizations(Some("svc-1".to_string())).unwrap();
    let ids: Vec<&str> = listed.iter().map(|o| o.org_id.as_str()).collect();
    assert_eq!(ids, vec!["o1", "o3"]);
    let unscoped = store.list_organizations(None).unwrap();
    assert_eq!(unscoped.len(), 1);
    assert_eq!(unscoped[0].org_id, "o2");
}

#[test]
fn fetching_matches_service_and_id() {
    let mut store = MemoryOrganizationStore::new();
    store.add_organizations(vec![org("o1", "Alpha", Some("svc-1"))]).unwrap();
    let found = store.fetch_organization("o1", Some("svc-1".to_string())).unwrap().unwrap();
    assert_eq!(found.name, "Alpha");
    assert!(store.fetch_organization("o1", None).is_err());
}

#[test]
fn fetching_an_absent_id_names_it_in_the_error() {
    let store = MemoryOrganizationStore::new();
    match store.fetch_organization("o9", None) {
        Err(OrganizationStoreError::NotFoundError(m)) => {
            assert_eq!(m, "Organization with org_id o9 not found.");
        }
        _ => panic!("expected a not-found error"),
    }
}
