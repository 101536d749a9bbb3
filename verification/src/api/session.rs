//! Endpoint schemas for sessions.

use vstd::prelude::*;

use crate::api::endpoint::{
    opt_pair, ov, push_opt, qview, Endpoint, Method, QueryPair, RequestBody,
};
use crate::api::features::{fov, FeaturedEndpoint, Features, FeaturesV};


verus! {

/// One service check tied to a session.
#[derive(Debug, Default)]
pub struct ServiceCheck {
    pub id: Option<String>,
    pub namespace: Option<String>,
}

/// One session as the session endpoints return it.
#[derive(Debug, Default)]
pub struct SessionEntry {
    pub behavior: Option<String>,
    pub create_index: Option<u64>,
    pub id: Option<String>,
    pub lock_delay: Option<u64>,
    pub name: Option<String>,
    pub namespace: Option<String>,
    pub node: Option<String>,
    pub node_checks: Option<Vec<String>>,
    pub service_checks: Option<Vec<ServiceCheck>>,
    pub ttl: Option<String>,
}

/// Initializes a new session.
/// 
/// * Path: `session/create`
/// * Method: PUT
#[derive(Debug, Default)]
pub struct CreateSessionRequest {
    pub features: Option<Features>,
    pub behavior: Option<String>,
    pub create_index: Option<u64>,
    pub id: Option<String>,
    pub lock_delay: Option<String>,
    pub name: Option<String>,
    pub namespace: Option<String>,
    pub node: Option<String>,
    pub node_checks: Option<Vec<String>>,
    pub service_checks: Option<Vec<ServiceCheck>>,
    pub ttl: Option<String>,
}

impl CreateSessionRequest {
    /// The endpoint description this request denotes; `body` holds the
    /// request's payload fields, already encoded by the serialization
    /// collaborator.
    pub fn to_endpoint(&self, body: Vec<u8>) -> (e: Endpoint)
        ensures
            e.path@ == "session/create"@,
            e.method == Method::Put,
            e.body matches RequestBody::Structured(b) && b@ == body@,
            e.query@.len() == 0,
    {
        let query: Vec<QueryPair> = Vec::new();
        Endpoint {
            path: String::from_str("session/create"),
            method: Method::Put,
            body: RequestBody::Structured(body),
            query,
        }
    }
}

impl FeaturedEndpoint for CreateSessionRequest {
    open spec fn spec_features(&self) -> Option<FeaturesV> {
        fov(self.features)
    }

    fn features(&self) -> (f: Option<Features>) {
        match &self.features {
            Some(x) => Some(x.clone()),
            None => None,
        }
    }
}

/// Destroys a session.
/// 
/// * Path: `session/destroy/{uuid}`
/// * Method: PUT
#[derive(Debug, Default)]
pub struct DeleteSessionRequest {
    pub features: Option<Features>,
    pub uuid: String,
    pub dc: Option<String>,
    pub ns: Option<String>,
}

impl DeleteSessionRequest {
    /// The endpoint description this request denotes.
    pub fn to_endpoint(&self) -> (e: Endpoint)
        ensures
            e.path@ == "session/destroy/"@ + self.uuid@,
            e.method == Method::Put,
            e.body is Empty,
            qview(e.query@) == opt_pair("dc"@, ov(self.dc)) + opt_pair("ns"@, ov(self.ns)),
    {
        let mut query: Vec<QueryPair> = Vec::new();
        push_opt(&mut query, "dc", &self.dc);
        push_opt(&mut query, "ns", &self.ns);
        proof {
            assert(qview(query@) =~= opt_pair("dc"@, ov(self.dc)) + opt_pair("ns"@, ov(self.ns)));
        }
        Endpoint {
            path: String::from_str("session/destroy/").concat(self.uuid.as_str()),
            method: Method::Put,
            body: RequestBody::Empty,
            query,
        }
    }
}

impl FeaturedEndpoint for DeleteSessionRequest {
    open spec fn spec_features(&self) -> Option<FeaturesV> {
        fov(self.features)
    }

    fn features(&self) -> (f: Option<Features>) {
        match &self.features {
            Some(x) => Some(x.clone()),
            None => None,
        }
    }
}

/// Reads a session.
/// 
/// * Path: `session/info/{uuid}`
/// * Method: GET
#[derive(Debug, Default)]
pub struct ReadSessionRequest {
    pub features: Option<Features>,
    pub uuid: String,
    pub dc: Option<String>,
    pub ns: Option<String>,
}

impl ReadSessionRequest {
    /// The endpoint description this request denotes.
    pub fn to_endpoint(&self) -> (e: Endpoint)
        ensures
            e.path@ == "session/info/"@ + self.uuid@,
            e.method == Method::Get,
            e.body is Empty,
            qview(e.query@) == opt_pair("dc"@, ov(self.dc)) + opt_pair("ns"@, ov(self.ns)),
    {
        let mut query: Vec<QueryPair> = Vec::new();
        push_opt(&mut query, "dc", &self.dc);
        push_opt(&mut query, "ns", &self.ns);
        proof {
            assert(qview(query@) =~= opt_pair("dc"@, ov(self.dc)) + opt_pair("ns"@, ov(self.ns)));
        }
        Endpoint {
            path: String::from_str("session/info/").concat(self.uuid.as_str()),
            method: Method::Get,
            body: RequestBody::Empty,
            query,
        }
    }
}

impl FeaturedEndpoint for ReadSessionRequest {
    open spec fn spec_features(&self) -> Option<FeaturesV> {
        fov(self.features)
    }

    fn features(&self) -> (f: Option<Features>) {
        match &self.features {
            Some(x) => Some(x.clone()),
            None => None,
        }
    }
}

/// Lists a node's sessions.
/// 
/// * Path: `session/node/{node}`
/// * Method: GET
#[derive(Debug, Default)]
pub struct ListNodeSessionsRequest {
    pub features: Option<Features>,
    pub node: String,
    pub dc: Option<String>,
    pub ns: Option<String>,
}

impl ListNodeSessionsRequest {
    /// The endpoint description this request denotes.
    pub fn to_endpoint(&self) -> (e: Endpoint)
        ensures
            e.path@ == "session/node/"@ + self.node@,
            e.method == Method::Get,
            e.body is Empty,
            qview(e.query@) == opt_pair("dc"@, ov(self.dc)) + opt_pair("ns"@, ov(self.ns)),
    {
        let mut query: Vec<QueryPair> = Vec::new();
        push_opt(&mut query, "dc", &self.dc);
        push_opt(&mut query, "ns", &self.ns);
        proof {
            assert(qview(query@) =~= opt_pair("dc"@, ov(self.dc)) + opt_pair("ns"@, ov(self.ns)));
        }
        Endpoint {
            path: String::from_str("session/node/").concat(self.node.as_str()),
            method: Method::Get,
            body: RequestBody::Empty,
            query,
        }
    }
}

impl FeaturedEndpoint for ListNodeSessionsRequest {
    open spec fn spec_features(&self) -> Option<FeaturesV> {
        fov(self.features)
    }

    fn features(&self) -> (f: Option<Features>) {
        match &self.features {
            Some(x) => Some(x.clone()),
            None => None,
        }
    }
}

/// Lists all active sessions in a datacenter.
/// 
/// * Path: `session/list`
/// * Method: GET
#[derive(Debug, Default)]
pub struct ListSessionsRequest {
    pub features: Option<Features>,
    pub dc: Option<String>,
    pub ns: Option<String>,
}

impl ListSessionsRequest {
    /// The endpoint description this request denotes.
    pub fn to_endpoint(&self) -> (e: Endpoint)
        ensures
            e.path@ == "session/list"@,
            e.method == Method::Get,
            e.body is Empty,
            qview(e.query@) == opt_pair("dc"@, ov(self.dc)) + opt_pair("ns"@, ov(self.ns)),
    {
        let mut query: Vec<QueryPair> = Vec::new();
        push_opt(&mut query, "dc", &self.dc);
        push_opt(&mut query, "ns", &self.ns);
        proof {
            assert(qview(query@) =~= opt_pair("dc"@, ov(self.dc)) + opt_pair("ns"@, ov(self.ns)));
        }
        Endpoint {
            path: String::from_str("session/list"),
            method: Method::Get,
            body: RequestBody::Empty,
            query,
        }
    }
}

impl FeaturedEndpoint for ListSessionsRequest {
    open spec fn spec_features(&self) -> Option<FeaturesV> {
        fov(self.features)
    }

    fn features(&self) -> (f: Option<Features>) {
        match &self.features {
            Some(x) => Some(x.clone()),
            None => None,
        }
    }
}

/// Renews a session, resetting its TTL.
/// 
/// * Path: `session/renew/{uuid}`
/// * Method: PUT
#[derive(Debug, Default)]
pub struct RenewSessionRequest {
    pub features: Option<Features>,
    pub uuid: String,
    pub dc: Option<String>,
    pub ns: Option<String>,
}

impl RenewSessionRequest {
    /// The endpoint description this request denotes.
    pub fn to_endpoint(&self) -> (e: Endpoint)
        ensures
            e.path@ == "session/renew/"@ + self.uuid@,
            e.method == Method::Put,
            e.body is Empty,
            qview(e.query@) == opt_pair("dc"@, ov(self.dc)) + opt_pair("ns"@, ov(self.ns)),
    {
        let mut query: Vec<QueryPair> = Vec::new();
        push_opt(&mut query, "dc", &self.dc);
        push_opt(&mut query, "ns", &self.ns);
        proof {
            assert(qview(query@) =~= opt_pair("dc"@, ov(self.dc)) + opt_pair("ns"@, ov(self.ns)));
        }
        Endpoint {
            path: String::from_str("session/renew/").concat(self.uuid.as_str()),
            method: Method::Put,
            body: RequestBody::Empty,
            query,
        }
    }
}

impl FeaturedEndpoint for RenewSessionRequest {
    open spec fn spec_features(&self) -> Option<FeaturesV> {
        fov(self.features)
    }

    fn features(&self) -> (f: Option<Features>) {
        match &self.features {
            Some(x) => Some(x.clone()),
            None => None,
        }
    }
}

/// Response from creating a session.
#[derive(Debug)]
pub struct CreateSessionResponse {
    pub id: String,
}

} // verus!
