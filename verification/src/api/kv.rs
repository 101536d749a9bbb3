//! Endpoint schemas for the key-value store.

use vstd::prelude::*;

use base64::Engine;

use crate::api::endpoint::{
    obv, opt_pair, ouv, ov, push_opt, push_opt_bool, push_opt_u64, push_bool, qview, Endpoint,
    Method, QueryPair, RequestBody,
};
use crate::api::features::{fov, FeaturedEndpoint, Features, FeaturesV};
use crate::error::ClientError;

verus! {

/// The bytes a Base64 text decodes to under the standard alphabet, when it is
/// valid; a function of the input characters alone.
pub uninterp spec fn base64_decoded(s: Seq<char>) -> Option<Seq<u8>>;

/// Relies on base64's `Engine::decode` with the standard alphabet: it yields
/// the decoded bytes exactly when the input is valid Base64, and its result
/// depends on the input characters alone.
#[verifier::external_body]
fn base64_decode(s: &str) -> (r: Result<Vec<u8>, String>)
    ensures
        match r {
            Ok(v) => base64_decoded(s@) == Some(v@),
            Err(_) => base64_decoded(s@) is None,
        },
{
    match base64::engine::general_purpose::STANDARD.decode(s.as_bytes()) {
        Ok(v) => Ok(v),
        Err(e) => Err(format!("{}", e)),
    }
}

/// A string containing Base64 encoded content.
#[derive(Debug)]
pub struct Base64String(pub String);

impl View for Base64String {
    type V = Seq<char>;

    open spec fn view(&self) -> Seq<char> {
        self.0@
    }
}

impl Clone for Base64String {
    /// Clones the string without changing its value.
    fn clone(&self) -> (r: Self)
        ensures
            r@ == self@,
    {
        Base64String(self.0.clone())
    }
}

impl Base64String {
    /// Decodes the contained Base64 text into the raw bytes it encodes.
    pub fn try_into_bytes(self) -> (r: Result<Vec<u8>, ClientError>)
        ensures
            r matches Ok(v) ==> base64_decoded(self@) == Some(v@),
            r matches Err(e) ==> base64_decoded(self@) is None && e matches
                ClientError::Base64DecodeError { .. },
    {
        match base64_decode(self.0.as_str()) {
            Ok(v) => Ok(v),
            Err(message) => Err(ClientError::Base64DecodeError { message }),
        }
    }

    /// Decodes the contained Base64 text into the UTF-8 string it encodes.
    pub fn try_into_string(self) -> (r: Result<String, ClientError>)
        ensures
            r matches Ok(s) ==> (base64_decoded(self@) matches Some(b)
                && vstd::utf8::valid_utf8(b) && s@ == vstd::utf8::decode_utf8(b)),
            r matches Err(e) ==> match e {
                ClientError::Base64DecodeError { .. } => base64_decoded(self@) is None,
                ClientError::Utf8DecodeError { .. } => base64_decoded(self@) matches Some(b)
                    && !vstd::utf8::valid_utf8(b),
                _ => false,
            },
    {
        let bytes = match self.try_into_bytes() {
            Ok(v) => v,
            Err(e) => {
                return Err(e);
            },
        };
        match crate::text::utf8_to_string(bytes) {
            Some(s) => Ok(s),
            None => Err(
                ClientError::Utf8DecodeError {
                    message: String::from_str("decoded Base64 content was not UTF-8"),
                },
            ),
        }
    }
}

/// One entry of the key-value store, as the read endpoints return it.
#[derive(Debug)]
pub struct KVPair {
    pub create_index: u64,
    pub flags: u64,
    pub key: String,
    pub lock_index: u64,
    pub modify_index: u64,
    pub namespace: Option<String>,
    pub session: Option<String>,
    pub value: Option<Base64String>,
}

/// A key-value entry whose value has already been decoded into `T`.
#[derive(Debug)]
pub struct GenericKVPair<T> {
    pub create_index: u64,
    pub flags: u64,
    pub key: String,
    pub lock_index: u64,
    pub modify_index: u64,
    pub namespace: Option<String>,
    pub session: Option<String>,
    pub value: T,
}

/// Response entry from executing a read-key request.
#[derive(Debug)]
pub struct ReadKeyResponse {
    pub create_index: u64,
    pub modify_index: u64,
    pub lock_index: u64,
    pub key: String,
    pub flags: u64,
    pub session: Option<String>,
    pub value: String,
}

impl ReadKeyResponse {
    /// Decodes the Base64 value field into raw bytes.
    pub fn value(&self) -> (r: Result<Vec<u8>, ClientError>)
        ensures
            r matches Ok(v) ==> base64_decoded(self.value@) == Some(v@),
            r matches Err(e) ==> base64_decoded(self.value@) is None && e matches
                ClientError::Base64DecodeError { .. },
    {
        match base64_decode(self.value.as_str()) {
            Ok(v) => Ok(v),
            Err(message) => Err(ClientError::Base64DecodeError { message }),
        }
    }
}

// ------------------------------------------------------------------
// Requests.
// ------------------------------------------------------------------

/// Reads the entries stored at a key.
///
/// * Path: `kv/{key}`
/// * Method: GET
#[derive(Debug, Default)]
pub struct ReadKeyRequest {
    pub features: Option<Features>,
    pub key: String,
    pub dc: Option<String>,
    pub ns: Option<String>,
    pub recurse: Option<bool>,
}

impl ReadKeyRequest {
    /// The endpoint description this request denotes.
    pub fn to_endpoint(&self) -> (e: Endpoint)
        ensures
            e.path@ == "kv/"@ + self.key@,
            e.method == Method::Get,
            e.body is Empty,
            qview(e.query@) == opt_pair("dc"@, ov(self.dc)) + opt_pair("ns"@, ov(self.ns))
                + opt_pair("recurse"@, obv(self.recurse)),
    {
        let mut query: Vec<QueryPair> = Vec::new();
        push_opt(&mut query, "dc", &self.dc);
        push_opt(&mut query, "ns", &self.ns);
        push_opt_bool(&mut query, "recurse", &self.recurse);
        proof {
            assert(qview(query@) =~= opt_pair("dc"@, ov(self.dc)) + opt_pair("ns"@, ov(self.ns))
                + opt_pair("recurse"@, obv(self.recurse)));
        }
        Endpoint {
            path: String::from_str("kv/").concat(self.key.as_str()),
            method: Method::Get,
            body: RequestBody::Empty,
            query,
        }
    }
}

impl FeaturedEndpoint for ReadKeyRequest {
    open spec fn spec_features(&self) -> Option<FeaturesV> {
        fov(self.features)
    }

    fn features(&self) -> (f: Option<Features>) {
        match &self.features {
            Some(x) => Some(x.clone()),
            None => None,
        }
    }
}

/// Reads the raw value stored at a key, bypassing the JSON envelope.
///
/// * Path: `kv/{key}`
/// * Method: GET
#[derive(Debug, Default)]
pub struct ReadRawKeyRequest {
    pub features: Option<Features>,
    pub key: String,
    pub dc: Option<String>,
    pub ns: Option<String>,
}

impl ReadRawKeyRequest {
    /// The endpoint description this request denotes; the `raw` flag is
    /// always sent.
    pub fn to_endpoint(&self) -> (e: Endpoint)
        ensures
            e.path@ == "kv/"@ + self.key@,
            e.method == Method::Get,
            e.body is Empty,
            qview(e.query@) == opt_pair("dc"@, ov(self.dc)) + opt_pair("ns"@, ov(self.ns))
                + seq![("raw"@, Some(crate::text::bool_str(true)))],
    {
        let mut query: Vec<QueryPair> = Vec::new();
        push_opt(&mut query, "dc", &self.dc);
        push_opt(&mut query, "ns", &self.ns);
        push_bool(&mut query, "raw", true);
        proof {
            assert(qview(query@) =~= opt_pair("dc"@, ov(self.dc)) + opt_pair("ns"@, ov(self.ns))
                + seq![("raw"@, Some(crate::text::bool_str(true)))]);
        }
        Endpoint {
            path: String::from_str("kv/").concat(self.key.as_str()),
            method: Method::Get,
            body: RequestBody::Empty,
            query,
        }
    }
}

impl FeaturedEndpoint for ReadRawKeyRequest {
    open spec fn spec_features(&self) -> Option<FeaturesV> {
        fov(self.features)
    }

    fn features(&self) -> (f: Option<Features>) {
        match &self.features {
            Some(x) => Some(x.clone()),
            None => None,
        }
    }
}

/// Lists the key names under a prefix.
///
/// * Path: `kv/{key}`
/// * Method: GET
#[derive(Debug, Default)]
pub struct ReadKeysRequest {
    pub features: Option<Features>,
    pub key: String,
    pub dc: Option<String>,
    pub ns: Option<String>,
    pub raw: Option<bool>,
    pub recurse: Option<bool>,
    /// Only meaningful together with the always-sent `keys` flag.
    pub separator: Option<String>,
}

impl ReadKeysRequest {
    /// The endpoint description this request denotes; the `keys` flag is
    /// always sent.
    pub fn to_endpoint(&self) -> (e: Endpoint)
        ensures
            e.path@ == "kv/"@ + self.key@,
            e.method == Method::Get,
            e.body is Empty,
            qview(e.query@) == opt_pair("dc"@, ov(self.dc)) + seq![
                ("keys"@, Some(crate::text::bool_str(true))),
            ] + opt_pair("ns"@, ov(self.ns)) + opt_pair("raw"@, obv(self.raw)) + opt_pair(
                "recurse"@,
                obv(self.recurse),
            ) + opt_pair("separator"@, ov(self.separator)),
    {
        let mut query: Vec<QueryPair> = Vec::new();
        push_opt(&mut query, "dc", &self.dc);
        push_bool(&mut query, "keys", true);
        push_opt(&mut query, "ns", &self.ns);
        push_opt_bool(&mut query, "raw", &self.raw);
        push_opt_bool(&mut query, "recurse", &self.recurse);
        push_opt(&mut query, "separator", &self.separator);
        proof {
            assert(qview(query@) =~= opt_pair("dc"@, ov(self.dc)) + seq![
                ("keys"@, Some(crate::text::bool_str(true))),
            ] + opt_pair("ns"@, ov(self.ns)) + opt_pair("raw"@, obv(self.raw)) + opt_pair(
                "recurse"@,
                obv(self.recurse),
            ) + opt_pair("separator"@, ov(self.separator)));
        }
        Endpoint {
            path: String::from_str("kv/").concat(self.key.as_str()),
            method: Method::Get,
            body: RequestBody::Empty,
            query,
        }
    }
}

impl FeaturedEndpoint for ReadKeysRequest {
    open spec fn spec_features(&self) -> Option<FeaturesV> {
        fov(self.features)
    }

    fn features(&self) -> (f: Option<Features>) {
        match &self.features {
            Some(x) => Some(x.clone()),
            None => None,
        }
    }
}

/// Creates or updates the value at a key. The value travels as the raw
/// request body, byte for byte.
///
/// * Path: `kv/{key}`
/// * Method: PUT
#[derive(Debug, Default)]
pub struct SetKeyRequest {
    pub features: Option<Features>,
    pub key: String,
    pub value: Vec<u8>,
    pub acquire: Option<String>,
    pub cas: Option<u64>,
    pub dc: Option<String>,
    pub flags: Option<u64>,
    pub ns: Option<String>,
    pub release: Option<String>,
}

impl SetKeyRequest {
    /// The endpoint description this request denotes. The body holds exactly
    /// the caller's value bytes, with no envelope added.
    pub fn to_endpoint(self) -> (e: Endpoint)
        ensures
            e.path@ == "kv/"@ + self.key@,
            e.method == Method::Put,
            e.body matches RequestBody::Raw(b) && b@ == self.value@,
            qview(e.query@) == opt_pair("acquire"@, ov(self.acquire)) + opt_pair(
                "cas"@,
                ouv(self.cas),
            ) + opt_pair("dc"@, ov(self.dc)) + opt_pair("flags"@, ouv(self.flags)) + opt_pair(
                "ns"@,
                ov(self.ns),
            ) + opt_pair("release"@, ov(self.release)),
    {
        let mut query: Vec<QueryPair> = Vec::new();
        push_opt(&mut query, "acquire", &self.acquire);
        push_opt_u64(&mut query, "cas", &self.cas);
        push_opt(&mut query, "dc", &self.dc);
        push_opt_u64(&mut query, "flags", &self.flags);
        push_opt(&mut query, "ns", &self.ns);
        push_opt(&mut query, "release", &self.release);
        proof {
            assert(qview(query@) =~= opt_pair("acquire"@, ov(self.acquire)) + opt_pair(
                "cas"@,
                ouv(self.cas),
            ) + opt_pair("dc"@, ov(self.dc)) + opt_pair("flags"@, ouv(self.flags)) + opt_pair(
                "ns"@,
                ov(self.ns),
            ) + opt_pair("release"@, ov(self.release)));
        }
        Endpoint {
            path: String::from_str("kv/").concat(self.key.as_str()),
            method: Method::Put,
            body: RequestBody::Raw(self.value),
            query,
        }
    }
}

impl FeaturedEndpoint for SetKeyRequest {
    open spec fn spec_features(&self) -> Option<FeaturesV> {
        fov(self.features)
    }

    fn features(&self) -> (f: Option<Features>) {
        match &self.features {
            Some(x) => Some(x.clone()),
            None => None,
        }
    }
}

/// Deletes a single key or every key sharing a prefix.
///
/// * Path: `kv/{key}`
/// * Method: DELETE
#[derive(Debug, Default)]
pub struct DeleteKeyRequest {
    pub features: Option<Features>,
    pub key: String,
    pub cas: Option<u64>,
    pub dc: Option<String>,
    pub ns: Option<String>,
    pub recurse: Option<bool>,
}

impl DeleteKeyRequest {
    /// The endpoint description this request denotes.
    pub fn to_endpoint(&self) -> (e: Endpoint)
        ensures
            e.path@ == "kv/"@ + self.key@,
            e.method == Method::Delete,
            e.body is Empty,
            qview(e.query@) == opt_pair("cas"@, ouv(self.cas)) + opt_pair("dc"@, ov(self.dc))
                + opt_pair("ns"@, ov(self.ns)) + opt_pair("recurse"@, obv(self.recurse)),
    {
        let mut query: Vec<QueryPair> = Vec::new();
        push_opt_u64(&mut query, "cas", &self.cas);
        push_opt(&mut query, "dc", &self.dc);
        push_opt(&mut query, "ns", &self.ns);
        push_opt_bool(&mut query, "recurse", &self.recurse);
        proof {
            assert(qview(query@) =~= opt_pair("cas"@, ouv(self.cas)) + opt_pair(
                "dc"@,
                ov(self.dc),
            ) + opt_pair("ns"@, ov(self.ns)) + opt_pair("recurse"@, obv(self.recurse)));
        }
        Endpoint {
            path: String::from_str("kv/").concat(self.key.as_str()),
            method: Method::Delete,
            body: RequestBody::Empty,
            query,
        }
    }
}

impl FeaturedEndpoint for DeleteKeyRequest {
    open spec fn spec_features(&self) -> Option<FeaturesV> {
        fov(self.features)
    }

    fn features(&self) -> (f: Option<Features>) {
        match &self.features {
            Some(x) => Some(x.clone()),
            None => None,
        }
    }
}

} // verus!
