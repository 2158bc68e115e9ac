//! The REST client pieces: routes, request URLs, pagination, the factory,
//! and the version requirement.

use grid_core::client::agent::agent_route;
use grid_core::client::fetch_methods::fetch_url;
use grid_core::client::fetch_methods::page_step;
use grid_core::client::fetch_methods::ListSlice;
use grid_core::client::fetch_methods::Paging;
use grid_core::client::location::location_route;
use grid_core::client::organization::organization_route;
use grid_core::client::product::product_route;
use grid_core::client::role::role_route;
use grid_core::client::role::roles_route;
use grid_core::client::schema::schema_route;
use grid_core::client::ClientFactory;
use grid_core::client::HttpClientFactory;
use grid_core::error::SetupError;
use grid_core::version::version_requirement;

fn paging(next: Option<&str>) -> Paging {
    Paging {
        current: "/agent?offset=0".to_string(),
        offset: 0,
        limit: 10,
        total: 2,
        first: "/agent?offset=0".to_string(),
        prev: "/agent?offset=0".to_string(),
        next: next.map(|s| s.to_string()),
        last: "/agent?offset=10".to_string(),
    }
}

#[test]
fn routes_name_the_entity_and_id() {
    assert_eq!(agent_route("pk1"), "agent/pk1");
    assert_eq!(location_route("l1"), "location/l1");
    assert_eq!(organization_route("o1"), "organization/o1");
    assert_eq!(product_route("prod-1"), "product/prod-1");
    assert_eq!(roles_route("o1"), "role/o1");
    assert_eq!(role_route("o1", "admin"), "role/o1/admin");
    assert_eq!(schema_route("s1"), "schema/s1");
}

#[test]
fn fetch_url_carries_the_service_id() {
    assert_eq!(fetch_url("http://gridd:8080", "agent", None), "http://gridd:8080/agent");
    assert_eq!(
        fetch_url("http://gridd:8080", "agent/pk1", Some("svc-1")),
        "http://gridd:8080/agent/pk1?service_id=svc-1"
    );
}

#[test]
fn pagination_appends_in_order_and_follows_next() {
    let mut entities: Vec<u32> = vec![1];
    let next = page_step(
        &mut entities,
        "http://gridd:8080",
        ListSlice { data: vec![2, 3], paging: paging(Some("/agent?offset=10")) },
    );
    assert_eq!(entities, vec![1, 2, 3]);
    assert_eq!(next.as_deref(), Some("http://gridd:8080/agent?offset=10"));
    let done = page_step(
        &mut entities,
        "http://gridd:8080",
        ListSlice { data: vec![4], paging: paging(None) },
    );
    assert_eq!(entities, vec![1, 2, 3, 4]);
    assert!(done.is_none());
}

#[test]
fn factory_binds_clients_to_the_url() {
    let url = "http://gridd:8080".to_string();
    assert_eq!(HttpClientFactory::agent_client(url.clone()).url, url);
    assert_eq!(HttpClientFactory::schema_client(url.clone()).url, url);
    assert_eq!(HttpClientFactory::role_client(url.clone()).url, url);
    assert_eq!(HttpClientFactory::organization_client(url.clone()).url, url);
    assert_eq!(HttpClientFactory::location_client(url.clone()).url, url);
    assert_eq!(HttpClientFactory::product_client(url.clone()).url, url);
    assert_eq!(HttpClientFactory::purchase_order_client(url.clone()).url, url);
}

#[test]
fn version_requirement_pins_major_minor_and_exact() {
    assert_eq!(version_requirement("0.3.6").unwrap(), "^0.3, 0.3.6");
    assert_eq!(version_requirement("12.40.3").unwrap(), "^12.40, 12.40.3");
}

#[test]
fn version_requirement_rejects_a_bad_version() {
    assert!(matches!(version_requirement("not-a-version"), Err(SetupError::InvalidVersion(_))));
}
