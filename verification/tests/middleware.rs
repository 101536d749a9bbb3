use consulrs::api::endpoint::{render_target, HeaderPair, Method, RequestParts, ResponseParts};
use consulrs::api::features::{Blocking, ConsistencyMode, Features};
use consulrs::api::kv::ReadKeyRequest;
use consulrs::api::{interpret_empty, interpret_raw, interpret_typed, prepare, TransportResult};
use consulrs::client::{middleware_for, ConsulClientSettings, EnvSettings};
use consulrs::error::ClientError;

fn settings_with_token(token: Option<&str>) -> ConsulClientSettings {
    let builder = ConsulClientSettings::builder().address("http://127.0.0.1:8500");
    let builder = match token {
        Some(t) => builder.token(t),
        None => builder,
    };
    builder.build(EnvSettings::default())
}

#[test]
fn version_prefix_is_applied_exactly_once() {
    let settings = settings_with_token(None);
    let mw = middleware_for(&settings, None);
    let req = ReadKeyRequest { key: String::from("foo"), ..Default::default() };
    let parts = prepare(req.to_endpoint(), &mw);
    assert_eq!(parts.path, "/v1/kv/foo");
    assert_eq!(render_target(&parts), "/v1/kv/foo");
}

#[test]
fn configured_version_number_is_used() {
    let settings =
        ConsulClientSettings::builder().version(3).build(EnvSettings::default());
    let mw = middleware_for(&settings, None);
    let req = ReadKeyRequest { key: String::from("a/b"), ..Default::default() };
    let parts = prepare(req.to_endpoint(), &mw);
    assert_eq!(parts.path, "/v3/kv/a/b");
}

#[test]
fn token_header_is_injected_exactly_once() {
    let settings = settings_with_token(Some("super-secret"));
    let mw = middleware_for(&settings, None);
    let req = ReadKeyRequest { key: String::from("foo"), ..Default::default() };
    let parts = prepare(req.to_endpoint(), &mw);
    let tokens: Vec<&HeaderPair> = parts
        .headers
        .iter()
        .filter(|h| h.name.eq_ignore_ascii_case("X-Consul-Token"))
        .collect();
    assert_eq!(tokens.len(), 1);
    assert_eq!(tokens[0].value, "super-secret");
}

#[test]
fn no_token_means_no_token_header() {
    let settings = settings_with_token(None);
    let mw = middleware_for(&settings, None);
    let req = ReadKeyRequest { key: String::from("foo"), ..Default::default() };
    let parts = prepare(req.to_endpoint(), &mw);
    assert!(parts.headers.iter().all(|h| !h.name.eq_ignore_ascii_case("X-Consul-Token")));
}

#[test]
fn features_and_endpoint_query_are_merged_in_target() {
    let settings = settings_with_token(None);
    let features = Features::builder()
        .blocking(Blocking { index: 42, wait: Some(String::from("5s")) })
        .build();
    let mw = middleware_for(&settings, Some(features));
    let req = ReadKeyRequest {
        key: String::from("foo"),
        dc: Some(String::from("dc1")),
        ..Default::default()
    };
    let parts = prepare(req.to_endpoint(), &mw);
    assert_eq!(render_target(&parts), "/v1/kv/foo?dc=dc1&index=42&wait=5s");
}

#[test]
fn consistency_flag_renders_bare() {
    let settings = settings_with_token(None);
    let features = Features::builder().mode(ConsistencyMode::CONSISTENT).build();
    let mw = middleware_for(&settings, Some(features));
    let req = ReadKeyRequest { key: String::from("foo"), ..Default::default() };
    let parts = prepare(req.to_endpoint(), &mw);
    assert_eq!(render_target(&parts), "/v1/kv/foo?consistent");
}

#[test]
fn target_escapes_reserved_characters() {
    let settings = settings_with_token(None);
    let features = Features::builder().filter("Meta.env == \"qa\"").build();
    let mw = middleware_for(&settings, Some(features));
    let req = ReadKeyRequest { key: String::from("my key"), ..Default::default() };
    let parts = prepare(req.to_endpoint(), &mw);
    assert_eq!(
        render_target(&parts),
        "/v1/kv/my%20key?filter=Meta.env%20%3D%3D%20%22qa%22"
    );
}

#[test]
fn status_500_classifies_as_api_error_with_body_message() {
    let result = TransportResult::Response(ResponseParts {
        status: 500,
        headers: Vec::new(),
        body: b"no such key".to_vec(),
    });
    match interpret_empty(result) {
        Err(ClientError::APIError { code, message }) => {
            assert_eq!(code, 500);
            assert_eq!(message.as_deref(), Some("no such key"));
        },
        other => panic!("expected an API error, got {:?}", other.is_ok()),
    }
}

#[test]
fn connection_failure_classifies_as_transport_error() {
    let result = TransportResult::Failure { message: String::from("connection refused") };
    match interpret_raw(result) {
        Err(ClientError::RestClientError { message }) => {
            assert_eq!(message, "connection refused");
        },
        other => panic!("expected a transport error, got {:?}", other.is_ok()),
    }
}

#[test]
fn non_json_body_maps_to_deserialization_error() {
    // A typed endpoint yields its body bytes; decoding them is the
    // serialization collaborator's step, whose failure is classified as a
    // deserialization error.
    let result = TransportResult::Response(ResponseParts {
        status: 200,
        headers: Vec::new(),
        body: b"not json at all".to_vec(),
    });
    let envelope = interpret_typed(result).unwrap();
    let decoded: Result<serde_json::Value, serde_json::Error> =
        serde_json::from_slice(&envelope.response);
    let err = decoded
        .map_err(|e| ClientError::JsonDeserializeError { message: format!("{}", e) })
        .unwrap_err();
    assert!(!err.is_api_error());
    assert!(matches!(err, ClientError::JsonDeserializeError { .. }));
}

#[test]
fn metadata_is_populated_from_headers_even_with_empty_body() {
    let result = TransportResult::Response(ResponseParts {
        status: 200,
        headers: vec![HeaderPair {
            name: String::from("X-Consul-Index"),
            value: String::from("100"),
        }],
        body: Vec::new(),
    });
    let envelope = interpret_empty(result).unwrap();
    assert_eq!(envelope.index.as_deref(), Some("100"));
    assert_eq!(envelope.cache, None);
}

#[test]
fn header_names_match_case_insensitively() {
    let result = TransportResult::Response(ResponseParts {
        status: 200,
        headers: vec![
            HeaderPair { name: String::from("x-consul-index"), value: String::from("9") },
            HeaderPair { name: String::from("X-CACHE"), value: String::from("HIT") },
        ],
        body: Vec::new(),
    });
    let envelope = interpret_empty(result).unwrap();
    assert_eq!(envelope.index.as_deref(), Some("9"));
    assert_eq!(envelope.cache.as_deref(), Some("HIT"));
}

#[test]
fn raw_interpretation_returns_body_bytes_unmodified() {
    let result = TransportResult::Response(ResponseParts {
        status: 200,
        headers: Vec::new(),
        body: vec![0xDE, 0xAD, 0xBE, 0xEF],
    });
    let envelope = interpret_raw(result).unwrap();
    assert_eq!(envelope.response, vec![0xDE, 0xAD, 0xBE, 0xEF]);
}

#[test]
fn typed_interpretation_of_empty_body_is_empty_response_error() {
    let result = TransportResult::Response(ResponseParts {
        status: 200,
        headers: Vec::new(),
        body: Vec::new(),
    });
    match interpret_typed(result) {
        Err(ClientError::ResponseEmptyError) => {},
        other => panic!("expected the empty-response error, got {:?}", other.is_ok()),
    }
}

#[test]
fn status_204_is_a_success() {
    let result = TransportResult::Response(ResponseParts {
        status: 204,
        headers: Vec::new(),
        body: Vec::new(),
    });
    assert!(interpret_empty(result).is_ok());
}

#[test]
fn status_300_is_an_api_error_with_empty_message() {
    let result = TransportResult::Response(ResponseParts {
        status: 300,
        headers: Vec::new(),
        body: Vec::new(),
    });
    match interpret_empty(result) {
        Err(ClientError::APIError { code, message }) => {
            assert_eq!(code, 300);
            assert_eq!(message.as_deref(), Some(""));
        },
        other => panic!("expected an API error, got {:?}", other.is_ok()),
    }
}

#[test]
fn middleware_response_hook_leaves_response_unchanged() {
    let settings = settings_with_token(None);
    let mw = middleware_for(&settings, None);
    let mut resp = ResponseParts {
        status: 200,
        headers: vec![HeaderPair { name: String::from("X-Cache"), value: String::from("HIT") }],
        body: vec![1, 2, 3],
    };
    assert!(mw.response(&mut resp).is_ok());
    assert_eq!(resp.status, 200);
    assert_eq!(resp.body, vec![1, 2, 3]);
    assert_eq!(resp.headers.len(), 1);
}

#[test]
fn method_is_carried_through() {
    let settings = settings_with_token(None);
    let mw = middleware_for(&settings, None);
    let req = consulrs::api::kv::DeleteKeyRequest {
        key: String::from("foo"),
        ..Default::default()
    };
    let parts = prepare(req.to_endpoint(), &mw);
    assert!(matches!(parts.method, Method::Delete));
}
