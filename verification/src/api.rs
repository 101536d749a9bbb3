//! The request/response pipeline shared by every endpoint: the middleware
//! that prefixes the API version, injects the ACL token and applies features;
//! the classification of transport outcomes; and the construction of the
//! response envelope from response headers and body.

use vstd::prelude::*;

pub mod endpoint;
pub mod features;

pub mod catalog;
pub mod check;
pub mod connect;
pub mod health;
pub mod kv;
pub mod service;
pub mod session;
pub mod snapshot;

use crate::api::endpoint::{
    header_lookup, hview, ov, qview, Endpoint, HeaderPair, RequestParts, ResponseParts,
};
use crate::api::features::{features_header_additions, features_query_additions, fov};
pub use crate::api::features::Features;
use crate::error::ClientError;
use crate::text::utf8_to_string;

verus! {

// ------------------------------------------------------------------
// The response envelope.
// ------------------------------------------------------------------

/// The result of a successful execution: the payload the endpoint declared,
/// together with metadata extracted from the response headers. Every metadata
/// field is absent unless the corresponding header was present.
#[derive(Debug)]
pub struct ApiResponse<T> {
    pub cache: Option<String>,
    pub content_hash: Option<String>,
    pub default_acl_policy: Option<String>,
    pub index: Option<String>,
    pub known_leader: Option<String>,
    pub last_contact: Option<String>,
    pub query_backend: Option<String>,
    pub response: T,
}

/// True when every metadata field of `a` is exactly the value of the
/// corresponding response header, and absent when that header is absent.
pub open spec fn metadata_from_headers<T>(
    a: ApiResponse<T>,
    hs: Seq<(Seq<char>, Seq<char>)>,
) -> bool {
    &&& ov(a.cache) == header_lookup(hs, "X-Cache"@)
    &&& ov(a.content_hash) == header_lookup(hs, "X-Consul-ContentHash"@)
    &&& ov(a.default_acl_policy) == header_lookup(hs, "X-Consul-Default-ACL-Policy"@)
    &&& ov(a.index) == header_lookup(hs, "X-Consul-Index"@)
    &&& ov(a.known_leader) == header_lookup(hs, "X-Consul-KnownLeader"@)
    &&& ov(a.last_contact) == header_lookup(hs, "X-Consul-LastContact"@)
    &&& ov(a.query_backend) == header_lookup(hs, "X-Consul-Query-Backend"@)
}

/// A builder assembling an `ApiResponse` from optional metadata and a payload.
#[derive(Debug)]
pub struct ApiResponseBuilder<T> {
    pub cache: Option<String>,
    pub content_hash: Option<String>,
    pub default_acl_policy: Option<String>,
    pub index: Option<String>,
    pub known_leader: Option<String>,
    pub last_contact: Option<String>,
    pub query_backend: Option<String>,
    pub response: Option<T>,
}

impl<T> ApiResponse<T> {
    /// Returns a builder with no metadata and no payload set.
    pub fn builder() -> (b: ApiResponseBuilder<T>)
        ensures
            b.cache is None,
            b.content_hash is None,
            b.default_acl_policy is None,
            b.index is None,
            b.known_leader is None,
            b.last_contact is None,
            b.query_backend is None,
            b.response is None,
    {
        ApiResponseBuilder {
            cache: None,
            content_hash: None,
            default_acl_policy: None,
            index: None,
            known_leader: None,
            last_contact: None,
            query_backend: None,
            response: None,
        }
    }
}

impl<T> ApiResponseBuilder<T> {
    /// Sets the payload.
    pub fn response(self, response: T) -> (r: Self)
        ensures
            r.response == Some(response),
            r.cache == self.cache,
            r.content_hash == self.content_hash,
            r.default_acl_policy == self.default_acl_policy,
            r.index == self.index,
            r.known_leader == self.known_leader,
            r.last_contact == self.last_contact,
            r.query_backend == self.query_backend,
    {
        ApiResponseBuilder { response: Some(response), ..self }
    }

    /// Finishes the builder; yields a response exactly when a payload was set.
    pub fn build(self) -> (r: Option<ApiResponse<T>>)
        ensures
            r is Some <==> self.response is Some,
            r matches Some(a) ==> {
                &&& Some(a.response) == self.response
                &&& a.cache == self.cache
                &&& a.content_hash == self.content_hash
                &&& a.default_acl_policy == self.default_acl_policy
                &&& a.index == self.index
                &&& a.known_leader == self.known_leader
                &&& a.last_contact == self.last_contact
                &&& a.query_backend == self.query_backend
            },
    {
        match self.response {
            Some(response) => Some(
                ApiResponse {
                    cache: self.cache,
                    content_hash: self.content_hash,
                    default_acl_policy: self.default_acl_policy,
                    index: self.index,
                    known_leader: self.known_leader,
                    last_contact: self.last_contact,
                    query_backend: self.query_backend,
                    response,
                },
            ),
            None => None,
        }
    }
}

/// Extracts the commonly returned metadata fields from response headers into
/// a builder with no payload set.
fn parse_headers<T>(headers: &Vec<HeaderPair>) -> (b: ApiResponseBuilder<T>)
    ensures
        ov(b.cache) == header_lookup(hview(headers@), "X-Cache"@),
        ov(b.content_hash) == header_lookup(hview(headers@), "X-Consul-ContentHash"@),
        ov(b.default_acl_policy) == header_lookup(hview(headers@), "X-Consul-Default-ACL-Policy"@),
        ov(b.index) == header_lookup(hview(headers@), "X-Consul-Index"@),
        ov(b.known_leader) == header_lookup(hview(headers@), "X-Consul-KnownLeader"@),
        ov(b.last_contact) == header_lookup(hview(headers@), "X-Consul-LastContact"@),
        ov(b.query_backend) == header_lookup(hview(headers@), "X-Consul-Query-Backend"@),
        b.response is None,
{
    ApiResponseBuilder {
        cache: endpoint::find_header(headers, "X-Cache"),
        content_hash: endpoint::find_header(headers, "X-Consul-ContentHash"),
        default_acl_policy: endpoint::find_header(headers, "X-Consul-Default-ACL-Policy"),
        index: endpoint::find_header(headers, "X-Consul-Index"),
        known_leader: endpoint::find_header(headers, "X-Consul-KnownLeader"),
        last_contact: endpoint::find_header(headers, "X-Consul-LastContact"),
        query_backend: endpoint::find_header(headers, "X-Consul-Query-Backend"),
        response: None,
    }
}

// ------------------------------------------------------------------
// The middleware.
// ------------------------------------------------------------------

/// The path a request is dispatched to: the version as the first segment,
/// then the endpoint's own path.
pub open spec fn versioned_path(version: Seq<char>, path: Seq<char>) -> Seq<char> {
    seq!['/'] + version + seq!['/'] + path
}

/// Law: version prefixing is applied exactly once per execution. Prefixing
/// strictly lengthens the path and never reproduces it, so a pipeline that
/// ran the middleware twice could not yield the path `prepare` guarantees;
/// and the prefixed path still determines the endpoint path, so no two
/// endpoints collide.
pub proof fn lemma_version_prefix_once(version: Seq<char>, path: Seq<char>, other: Seq<char>)
    ensures
        versioned_path(version, path).len() > path.len(),
        versioned_path(version, path) != path,
        versioned_path(version, versioned_path(version, path)) != versioned_path(version, path),
        versioned_path(version, path) == versioned_path(version, other) ==> path == other,
{
    assert(versioned_path(version, path).len() == path.len() + version.len() + 2);
    assert(versioned_path(version, versioned_path(version, path)).len() != versioned_path(
        version,
        path,
    ).len());
    if versioned_path(version, path) == versioned_path(version, other) {
        let n = version.len() + 2;
        assert(path =~= versioned_path(version, path).subrange(
            n as int,
            versioned_path(version, path).len() as int,
        ));
        assert(other =~= versioned_path(version, other).subrange(
            n as int,
            versioned_path(version, other).len() as int,
        ));
    }
}

/// The header field the ACL token travels in.
pub open spec fn token_header(token: Option<Seq<char>>) -> Seq<(Seq<char>, Seq<char>)> {
    match token {
        Some(t) => seq![("X-Consul-Token"@, t)],
        None => Seq::<(Seq<char>, Seq<char>)>::empty(),
    }
}

/// Law: the headers of a prepared request carry exactly one ACL token header
/// when a token is configured — holding exactly the configured token — and
/// none when no token is configured, whatever features are attached.
pub proof fn lemma_token_injected_once(
    token: Option<Seq<char>>,
    features: Option<features::FeaturesV>,
)
    ensures
        endpoint::count_matching(
            token_header(token) + features_header_additions(features),
            "X-Consul-Token"@,
        ) == (if token is Some {
            1nat
        } else {
            0nat
        }),
        token matches Some(t) ==> header_lookup(
            token_header(token) + features_header_additions(features),
            "X-Consul-Token"@,
        ) == Some(t),
{
    let name = "X-Consul-Token"@;
    let hs = token_header(token) + features_header_additions(features);
    let add = features_header_additions(features);
    reveal_strlit("X-Consul-Token");
    reveal_strlit("Cache-Control");
    assert(endpoint::lower_chars("Cache-Control"@).len() == 13);
    assert(endpoint::lower_chars(name).len() == 14);
    assert(!endpoint::names_match("Cache-Control"@, name));
    // The features contribute at most a Cache-Control header.
    match features {
        Some(f) => {
            match f.cached {
                Some(c) => {
                    if c.len() > 0 {
                        assert(add =~= seq![("Cache-Control"@, c)]);
                    } else {
                        assert(add =~= Seq::<(Seq<char>, Seq<char>)>::empty());
                    }
                },
                None => {
                    assert(add =~= Seq::<(Seq<char>, Seq<char>)>::empty());
                },
            }
        },
        None => {
            assert(add =~= Seq::<(Seq<char>, Seq<char>)>::empty());
        },
    }
    assert(endpoint::count_matching(Seq::<(Seq<char>, Seq<char>)>::empty(), name) == 0);
    if add.len() == 1 {
        assert(add[0].0 == "Cache-Control"@);
        assert(add.drop_first() =~= Seq::<(Seq<char>, Seq<char>)>::empty());
        assert(endpoint::count_matching(add.drop_first(), name) == 0);
        assert(endpoint::count_matching(add, name) == 0);
    } else {
        assert(endpoint::count_matching(add, name) == 0);
    }
    match token {
        None => {
            assert(hs =~= add);
        },
        Some(t) => {
            assert(hs[0] == (name, t));
            assert(endpoint::names_match(hs[0].0, name));
            assert(header_lookup(hs, name) == Some(t));
            assert(hs.drop_first() =~= add);
            assert(endpoint::count_matching(hs, name) == 1 + endpoint::count_matching(add, name));
        },
    }
}

/// Per-client middleware applied to every outgoing request: prefixes the API
/// version onto the path, injects the ACL token header when one is
/// configured, and applies the endpoint's optional features.
#[derive(Debug)]
pub struct EndpointMiddleware {
    pub features: Option<Features>,
    pub token: Option<String>,
    /// The version path segment, e.g. `v1`.
    pub version: String,
}

impl EndpointMiddleware {
    /// Mutates an outgoing request: the configured version becomes the first
    /// path segment (applied exactly once per execution), the token header is
    /// appended when a token is configured, and any features contribute their
    /// query parameters and headers after that.
    pub fn request(&self, req: &mut RequestParts) -> (r: Result<(), ClientError>)
        ensures
            r is Ok,
            final(req).method == old(req).method,
            final(req).body@ == old(req).body@,
            final(req).path@ == seq!['/'] + self.version@ + old(req).path@,
            qview(final(req).query@) == qview(old(req).query@) + features_query_additions(
                fov(self.features),
            ),
            hview(final(req).headers@) == hview(old(req).headers@) + token_header(ov(self.token))
                + features_header_additions(fov(self.features)),
    {
        // Prepend the API version to the path.
        let mut path = String::from_str("/");
        proof {
            reveal_strlit("/");
            assert(path@ =~= seq!['/']);
        }
        path.append(self.version.as_str());
        path.append(req.path.as_str());
        req.path = path;

        // Add the ACL token header if a token is configured.
        if let Some(token) = &self.token {
            req.headers.push(
                HeaderPair { name: String::from_str("X-Consul-Token"), value: token.clone() },
            );
        }

        // Apply any optional API features.
        if let Some(f) = &self.features {
            f.process(req);
        }

        proof {
            assert(qview(req.query@) =~= qview(old(req).query@) + features_query_additions(
                fov(self.features),
            ));
            assert(hview(req.headers@) =~= hview(old(req).headers@) + token_header(ov(self.token))
                + features_header_additions(fov(self.features)));
        }
        Ok(())
    }

    /// The response-side hook. Reserved as an extension point; currently it
    /// leaves the response untouched.
    pub fn response(&self, resp: &mut ResponseParts) -> (r: Result<(), ClientError>)
        ensures
            r is Ok,
            *final(resp) == *old(resp),
    {
        Ok(())
    }
}

// ------------------------------------------------------------------
// Building the wire request.
// ------------------------------------------------------------------

/// Turns an endpoint description into the initial wire request: the declared
/// method, the endpoint path made absolute, the declared query parameters,
/// no headers yet, and the body bytes of the declared body kind. Raw bodies
/// are passed through byte for byte.
pub fn build_request(endpoint: Endpoint) -> (req: RequestParts)
    ensures
        req.method == endpoint.method,
        req.path@ == seq!['/'] + endpoint.path@,
        qview(req.query@) == qview(endpoint.query@),
        req.headers@.len() == 0,
        req.body@ == endpoint.body.bytes(),
{
    let mut path = String::from_str("/");
    proof {
        reveal_strlit("/");
        assert(path@ =~= seq!['/']);
    }
    path.append(endpoint.path.as_str());
    let body: Vec<u8> = match endpoint.body {
        endpoint::RequestBody::Empty => Vec::new(),
        endpoint::RequestBody::Structured(b) => b,
        endpoint::RequestBody::Raw(b) => b,
    };
    RequestParts { method: endpoint.method, path, query: endpoint.query, headers: Vec::new(), body }
}

/// Builds the fully formed wire request for an endpoint: the initial request
/// of `build_request` with the middleware applied exactly once.
pub fn prepare(endpoint: Endpoint, middleware: &EndpointMiddleware) -> (req: RequestParts)
    ensures
        req.method == endpoint.method,
        req.path@ == versioned_path(middleware.version@, endpoint.path@),
        qview(req.query@) == qview(endpoint.query@) + features_query_additions(
            fov(middleware.features),
        ),
        hview(req.headers@) == token_header(ov(middleware.token)) + features_header_additions(
            fov(middleware.features),
        ),
        req.body@ == endpoint.body.bytes(),
{
    let mut req = build_request(endpoint);
    let ghost initial = req;
    let r = middleware.request(&mut req);
    proof {
        assert(hview(initial.headers@) =~= Seq::<(Seq<char>, Seq<char>)>::empty());
        assert(hview(req.headers@) =~= token_header(ov(middleware.token))
            + features_header_additions(fov(middleware.features)));
        assert(req.path@ =~= seq!['/'] + middleware.version@ + seq!['/'] + endpoint.path@);
    }
    match r {
        Ok(()) => req,
        Err(_) => req,
    }
}

// ------------------------------------------------------------------
// Classifying what the transport produced.
// ------------------------------------------------------------------

/// What the transport produced for one dispatched request: a response from
/// the remote (whatever its status), or a failure before any response was
/// obtained (connection, TLS, timeout, malformed response).
#[derive(Debug)]
pub enum TransportResult {
    Response(ResponseParts),
    Failure { message: String },
}

/// The statuses the execution layer counts as success.
pub open spec fn ok_status(status: u16) -> bool {
    200 <= status <= 208
}

/// The message an API error carries: the response body, when it is valid
/// UTF-8 text.
pub open spec fn api_error_message(body: Seq<u8>) -> Option<Seq<char>> {
    if vstd::utf8::valid_utf8(body) {
        Some(vstd::utf8::decode_utf8(body))
    } else {
        None
    }
}

/// How a failed execution is classified, for any of the entry points:
/// a response with a non-success status becomes an API error carrying that
/// status and the body text; a transport failure is wrapped unchanged.
pub open spec fn dispatch_error(result: TransportResult, e: ClientError) -> bool {
    match result {
        TransportResult::Response(resp) => {
            &&& !ok_status(resp.status)
            &&& e matches ClientError::APIError { code, message } && code == resp.status && ov(
                message,
            ) == api_error_message(resp.body@)
        },
        TransportResult::Failure { message } => e matches ClientError::RestClientError {
            message: m,
        } && m@ == message@,
    }
}

/// Splits a transport outcome into a success response and a classified error.
/// Every entry point goes through this classification; none bypasses it.
pub fn classify(result: TransportResult) -> (r: Result<ResponseParts, ClientError>)
    ensures
        r matches Ok(resp) ==> result == TransportResult::Response(resp) && ok_status(resp.status),
        r is Ok <==> (result matches TransportResult::Response(resp) && ok_status(resp.status)),
        r matches Err(e) ==> dispatch_error(result, e),
{
    match result {
        TransportResult::Response(resp) => {
            if 200 <= resp.status && resp.status <= 208 {
                Ok(resp)
            } else {
                Err(
                    ClientError::APIError {
                        code: resp.status,
                        message: utf8_to_string(resp.body),
                    },
                )
            }
        },
        TransportResult::Failure { message } => Err(ClientError::RestClientError { message }),
    }
}

// ------------------------------------------------------------------
// The three entry points of the execution layer.
// ------------------------------------------------------------------

/// Interprets a transport outcome for an endpoint that declares no response
/// body. The body is ignored; metadata is still populated from the headers.
pub fn interpret_empty(result: TransportResult) -> (r: Result<ApiResponse<()>, ClientError>)
    ensures
        r is Ok <==> (result matches TransportResult::Response(resp) && ok_status(resp.status)),
        r matches Ok(a) ==> (result matches TransportResult::Response(resp)
            && metadata_from_headers(a, hview(resp.headers@))),
        r matches Err(e) ==> dispatch_error(result, e),
{
    let resp = match classify(result) {
        Ok(resp) => resp,
        Err(e) => {
            return Err(e);
        },
    };
    let builder = parse_headers::<()>(&resp.headers).response(());
    Ok(builder.build().unwrap())
}

/// Interprets a transport outcome for an endpoint that declares a raw
/// response: the body bytes are returned unmodified.
pub fn interpret_raw(result: TransportResult) -> (r: Result<ApiResponse<Vec<u8>>, ClientError>)
    ensures
        r is Ok <==> (result matches TransportResult::Response(resp) && ok_status(resp.status)),
        r matches Ok(a) ==> (result matches TransportResult::Response(resp)
            && metadata_from_headers(a, hview(resp.headers@)) && a.response@ == resp.body@),
        r matches Err(e) ==> dispatch_error(result, e),
{
    let resp = match classify(result) {
        Ok(resp) => resp,
        Err(e) => {
            return Err(e);
        },
    };
    let builder = parse_headers::<Vec<u8>>(&resp.headers);
    let builder = builder.response(resp.body);
    Ok(builder.build().unwrap())
}

/// Interprets a transport outcome for an endpoint that declares a typed
/// response. A typed payload is decoded from the returned bytes by the
/// serialization collaborator, so this yields the body bytes; an empty body
/// where a typed response was expected is an empty-response error rather
/// than a decode failure.
pub fn interpret_typed(result: TransportResult) -> (r: Result<ApiResponse<Vec<u8>>, ClientError>)
    ensures
        r is Ok <==> (result matches TransportResult::Response(resp) && ok_status(resp.status)
            && resp.body@.len() > 0),
        r matches Ok(a) ==> (result matches TransportResult::Response(resp)
            && metadata_from_headers(a, hview(resp.headers@)) && a.response@ == resp.body@),
        (result matches TransportResult::Response(resp) && ok_status(resp.status)
            && resp.body@.len() == 0) ==> (r matches Err(e)
            && e == ClientError::ResponseEmptyError),
        match r {
            Err(e) => !(e matches ClientError::ResponseEmptyError) ==> dispatch_error(result, e),
            Ok(_) => true,
        },
{
    let resp = match classify(result) {
        Ok(resp) => resp,
        Err(e) => {
            return Err(e);
        },
    };
    if resp.body.len() == 0 {
        return Err(ClientError::ResponseEmptyError);
    }
    let builder = parse_headers::<Vec<u8>>(&resp.headers);
    let builder = builder.response(resp.body);
    Ok(builder.build().unwrap())
}

} // verus!
