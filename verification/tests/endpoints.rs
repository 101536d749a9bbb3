use consulrs::api::catalog::{ListDatacentersRequest, ListNodesForServiceRequest};
use consulrs::api::check::{RegisterCheckRequest, TtlCheckUpdateRequest};
use consulrs::api::endpoint::{Method, RequestBody};
use consulrs::api::features::FeaturedEndpoint;
use consulrs::api::service::EnableMaintenanceRequest;
use consulrs::api::session::DeleteSessionRequest;
use consulrs::api::snapshot::RestoreSnapshotRequest;
use consulrs::api::Features;

#[test]
fn catalog_service_lookup_builds_its_path_and_query() {
    let req = ListNodesForServiceRequest {
        service: String::from("web"),
        dc: Some(String::from("dc1")),
        ..Default::default()
    };
    let e = req.to_endpoint();
    assert_eq!(e.path, "catalog/service/web");
    assert!(matches!(e.method, Method::Get));
    assert!(matches!(e.body, RequestBody::Empty));
    assert_eq!(e.query.len(), 1);
    assert_eq!(e.query[0].key, "dc");
    assert_eq!(e.query[0].value.as_deref(), Some("dc1"));
}

#[test]
fn datacenters_endpoint_has_no_parameters() {
    let e = ListDatacentersRequest::default().to_endpoint();
    assert_eq!(e.path, "catalog/datacenters");
    assert!(e.query.is_empty());
    assert!(matches!(e.body, RequestBody::Empty));
}

#[test]
fn maintenance_endpoint_always_sends_the_enable_flag() {
    let req = EnableMaintenanceRequest {
        id: String::from("svc-1"),
        enable: true,
        ..Default::default()
    };
    let e = req.to_endpoint();
    assert_eq!(e.path, "agent/service/maintenance/svc-1");
    assert!(matches!(e.method, Method::Put));
    assert_eq!(e.query[0].key, "enable");
    assert_eq!(e.query[0].value.as_deref(), Some("true"));
}

#[test]
fn structured_bodies_are_attached_as_given() {
    let req = RegisterCheckRequest { name: String::from("mem"), ..Default::default() };
    let body = b"{\"Name\":\"mem\"}".to_vec();
    let e = req.to_endpoint(body.clone());
    assert_eq!(e.path, "agent/check/register");
    match e.body {
        RequestBody::Structured(b) => assert_eq!(b, body),
        _ => panic!("expected a structured body"),
    }
}

#[test]
fn ttl_update_endpoint_carries_check_in_path() {
    let req = TtlCheckUpdateRequest {
        check: String::from("mem"),
        status: Some(String::from("passing")),
        ..Default::default()
    };
    let e = req.to_endpoint(b"{\"Status\":\"passing\"}".to_vec());
    assert_eq!(e.path, "agent/check/update/mem");
    assert!(matches!(e.method, Method::Put));
}

#[test]
fn session_destroy_is_a_put_without_body() {
    let req = DeleteSessionRequest { uuid: String::from("abc-123"), ..Default::default() };
    let e = req.to_endpoint();
    assert_eq!(e.path, "session/destroy/abc-123");
    assert!(matches!(e.method, Method::Put));
    assert!(matches!(e.body, RequestBody::Empty));
}

#[test]
fn snapshot_restore_passes_raw_data_through() {
    let req = RestoreSnapshotRequest { data: vec![1, 2, 3, 4, 5], ..Default::default() };
    let e = req.to_endpoint();
    assert_eq!(e.path, "snapshot");
    match e.body {
        RequestBody::Raw(b) => assert_eq!(b, vec![1, 2, 3, 4, 5]),
        _ => panic!("expected a raw body"),
    }
}

#[test]
fn endpoints_expose_their_features() {
    let features = Features::builder().cached("").build();
    let req = ListDatacentersRequest { features: Some(features) };
    let f = req.features().unwrap();
    assert_eq!(f.cached.as_deref(), Some(""));
    assert!(f.blocking.is_none());
    let bare = ListDatacentersRequest::default();
    assert!(bare.features().is_none());
}
