use consulrs::api::kv::{Base64String, KVPair, ReadKeyRequest, ReadKeyResponse, SetKeyRequest};
use consulrs::api::ApiResponse;
use consulrs::error::ClientError;
use consulrs::kv::read_value;

fn envelope(entries: Vec<KVPair>) -> ApiResponse<Vec<KVPair>> {
    ApiResponse {
        cache: None,
        content_hash: None,
        default_acl_policy: None,
        index: Some(String::from("12")),
        known_leader: None,
        last_contact: None,
        query_backend: None,
        response: entries,
    }
}

fn entry(value: Option<&str>) -> KVPair {
    KVPair {
        create_index: 1,
        flags: 0,
        key: String::from("conf"),
        lock_index: 0,
        modify_index: 2,
        namespace: None,
        session: None,
        value: value.map(|v| Base64String(String::from(v))),
    }
}

#[test]
fn read_value_of_empty_list_is_empty_response_error() {
    match read_value(envelope(Vec::new())) {
        Err(ClientError::EmptyResponseError) => {},
        other => panic!("expected the empty-response error, got {:?}", other.is_ok()),
    }
}

#[test]
fn read_value_decodes_the_single_entry() {
    // "eyJmaWVsZCI6IngifQ==" is the Base64 encoding of {"field":"x"}.
    let res = read_value(envelope(vec![entry(Some("eyJmaWVsZCI6IngifQ=="))])).unwrap();
    assert_eq!(res.response, b"{\"field\":\"x\"}".to_vec());
    let decoded: serde_json::Value = serde_json::from_slice(&res.response).unwrap();
    assert_eq!(decoded.get("field").and_then(|v| v.as_str()), Some("x"));
    // Metadata carries over unchanged.
    assert_eq!(res.index.as_deref(), Some("12"));
}

#[test]
fn read_value_takes_the_last_entry() {
    // "Zmlyc3Q=" is "first", "bGFzdA==" is "last".
    let res =
        read_value(envelope(vec![entry(Some("Zmlyc3Q=")), entry(Some("bGFzdA=="))])).unwrap();
    assert_eq!(res.response, b"last".to_vec());
}

#[test]
fn read_value_of_invalid_base64_is_a_decode_error() {
    match read_value(envelope(vec![entry(Some("!!!not base64!!!"))])) {
        Err(ClientError::Base64DecodeError { .. }) => {},
        other => panic!("expected a Base64 decode error, got {:?}", other.is_ok()),
    }
}

#[test]
fn read_value_of_entry_without_value_is_empty_response_error() {
    match read_value(envelope(vec![entry(None)])) {
        Err(ClientError::EmptyResponseError) => {},
        other => panic!("expected the empty-response error, got {:?}", other.is_ok()),
    }
}

#[test]
fn base64_string_decodes_to_bytes() {
    let b = Base64String(String::from("aGVsbG8="));
    assert_eq!(b.try_into_bytes().unwrap(), b"hello".to_vec());
}

#[test]
fn base64_string_decodes_to_utf8_text() {
    let b = Base64String(String::from("aGVsbG8="));
    assert_eq!(b.try_into_string().unwrap(), "hello");
}

#[test]
fn base64_string_surfaces_utf8_failures() {
    // "/w==" decodes to the single byte 0xFF, which is not UTF-8.
    let b = Base64String(String::from("/w=="));
    match b.try_into_string() {
        Err(ClientError::Utf8DecodeError { .. }) => {},
        other => panic!("expected a UTF-8 decode error, got {:?}", other.is_ok()),
    }
}

#[test]
fn read_key_response_decodes_its_value() {
    let resp = ReadKeyResponse {
        create_index: 1,
        modify_index: 1,
        lock_index: 0,
        key: String::from("k"),
        flags: 0,
        session: None,
        value: String::from("aGVsbG8="),
    };
    assert_eq!(resp.value().unwrap(), b"hello".to_vec());
}

#[test]
fn set_key_request_passes_raw_bytes_through() {
    let req = SetKeyRequest {
        key: String::from("blob"),
        value: vec![0xDE, 0xAD, 0xBE, 0xEF],
        ..Default::default()
    };
    let endpoint = req.to_endpoint();
    match endpoint.body {
        consulrs::api::endpoint::RequestBody::Raw(b) => {
            assert_eq!(b, vec![0xDE, 0xAD, 0xBE, 0xEF]);
        },
        _ => panic!("expected a raw body"),
    }
}

#[test]
fn set_key_request_renders_cas_in_decimal() {
    let req = SetKeyRequest {
        key: String::from("k"),
        value: Vec::new(),
        cas: Some(18446744073709551615),
        ..Default::default()
    };
    let endpoint = req.to_endpoint();
    assert_eq!(endpoint.query.len(), 1);
    assert_eq!(endpoint.query[0].key, "cas");
    assert_eq!(endpoint.query[0].value.as_deref(), Some("18446744073709551615"));
}

#[test]
fn read_key_request_describes_its_endpoint() {
    let req = ReadKeyRequest {
        key: String::from("app/config"),
        recurse: Some(true),
        ..Default::default()
    };
    let endpoint = req.to_endpoint();
    assert_eq!(endpoint.path, "kv/app/config");
    assert_eq!(endpoint.query.len(), 1);
    assert_eq!(endpoint.query[0].key, "recurse");
    assert_eq!(endpoint.query[0].value.as_deref(), Some("true"));
}
