use consulrs::api::endpoint::{Method, QueryPair, RequestParts};
use consulrs::api::features::{Blocking, ConsistencyMode, Features};

fn empty_request() -> RequestParts {
    RequestParts {
        method: Method::Get,
        path: String::from("kv/foo"),
        query: Vec::new(),
        headers: Vec::new(),
        body: Vec::new(),
    }
}

fn pairs(req: &RequestParts) -> Vec<(String, Option<String>)> {
    req.query
        .iter()
        .map(|p: &QueryPair| (p.key.clone(), p.value.clone()))
        .collect()
}

#[test]
fn blocking_with_wait_adds_index_and_wait() {
    let features = Features::builder()
        .blocking(Blocking { index: 42, wait: Some(String::from("5s")) })
        .build();
    let mut req = empty_request();
    features.process(&mut req);
    let q = pairs(&req);
    assert!(q.contains(&(String::from("index"), Some(String::from("42")))));
    assert!(q.contains(&(String::from("wait"), Some(String::from("5s")))));
    assert_eq!(q.len(), 2);
}

#[test]
fn blocking_without_wait_adds_only_index() {
    let features = Features::builder().blocking(Blocking { index: 7, wait: None }).build();
    let mut req = empty_request();
    features.process(&mut req);
    let q = pairs(&req);
    assert!(q.contains(&(String::from("index"), Some(String::from("7")))));
    assert!(q.iter().all(|(k, _)| k != "wait"));
    assert_eq!(q.len(), 1);
}

#[test]
fn consistent_mode_is_exclusive() {
    let features = Features::builder().mode(ConsistencyMode::CONSISTENT).build();
    let mut req = empty_request();
    features.process(&mut req);
    let q = pairs(&req);
    assert!(q.contains(&(String::from("consistent"), None)));
    assert!(q.iter().all(|(k, _)| k != "stale"));
}

#[test]
fn stale_mode_is_exclusive() {
    let features = Features::builder().mode(ConsistencyMode::STALE).build();
    let mut req = empty_request();
    features.process(&mut req);
    let q = pairs(&req);
    assert!(q.contains(&(String::from("stale"), None)));
    assert!(q.iter().all(|(k, _)| k != "consistent"));
}

#[test]
fn cached_with_policy_sets_header_and_flag() {
    let features = Features::builder().cached("max-age=30").build();
    let mut req = empty_request();
    features.process(&mut req);
    let q = pairs(&req);
    assert!(q.contains(&(String::from("cached"), None)));
    assert_eq!(req.headers.len(), 1);
    assert_eq!(req.headers[0].name, "Cache-Control");
    assert_eq!(req.headers[0].value, "max-age=30");
}

#[test]
fn cached_with_empty_policy_sets_flag_but_no_header() {
    let features = Features::builder().cached("").build();
    let mut req = empty_request();
    features.process(&mut req);
    let q = pairs(&req);
    assert!(q.contains(&(String::from("cached"), None)));
    assert!(req.headers.is_empty());
}

#[test]
fn filter_is_passed_through_verbatim() {
    let features = Features::builder().filter("Meta.env == \"qa\"").build();
    let mut req = empty_request();
    features.process(&mut req);
    let q = pairs(&req);
    assert!(q.contains(&(String::from("filter"), Some(String::from("Meta.env == \"qa\"")))));
}

#[test]
fn existing_query_parameters_are_kept() {
    let features = Features::builder().blocking(Blocking { index: 1, wait: None }).build();
    let mut req = empty_request();
    req.query.push(QueryPair { key: String::from("dc"), value: Some(String::from("dc1")) });
    features.process(&mut req);
    let q = pairs(&req);
    assert_eq!(q[0], (String::from("dc"), Some(String::from("dc1"))));
    assert!(q.contains(&(String::from("index"), Some(String::from("1")))));
}
