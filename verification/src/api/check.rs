//! Endpoint schemas for agent checks.

use vstd::prelude::*;

use std::collections::HashMap;

use crate::api::endpoint::{
    opt_pair, ov, push_opt, qview, Endpoint, Method, QueryPair, RequestBody,
};
use crate::api::features::{fov, FeaturedEndpoint, Features, FeaturesV};


verus! {

/// The definition of a health check.
#[derive(Debug, Default)]
pub struct HealthCheckDefinition {
    pub body: Option<String>,
    pub deregister_critical_service_after_duration: Option<String>,
    pub header: Option<HashMap<String, String>>,
    pub http: Option<String>,
    pub interval_duration: Option<String>,
    pub method: Option<String>,
    pub tcp: Option<String>,
    pub timeout_duration: Option<String>,
    pub tls_server_name: Option<String>,
    pub tls_skip_verify: Option<bool>,
}

/// One check as an agent reports it.
#[derive(Debug, Default)]
pub struct AgentCheck {
    pub check_id: Option<String>,
    pub create_index: Option<u64>,
    pub definition: Option<HealthCheckDefinition>,
    pub exposed_port: Option<u64>,
    pub modify_index: Option<u64>,
    pub name: Option<String>,
    pub namespace: Option<String>,
    pub node: Option<String>,
    pub notes: Option<String>,
    pub output: Option<String>,
    pub service_id: Option<String>,
    pub service_name: Option<String>,
    pub status: Option<String>,
    pub ty: Option<String>,
}

/// A check attached to a service registration.
#[derive(Debug, Default)]
pub struct AgentServiceCheck {
    pub alias_node: Option<String>,
    pub alias_service: Option<String>,
    pub args: Option<Vec<String>>,
    pub body: Option<String>,
    pub check_id: Option<String>,
    pub deregister_critical_service_after: Option<String>,
    pub docker_container_id: Option<String>,
    pub failures_before_critical: Option<u64>,
    pub grpc: Option<String>,
    pub grpc_use_tls: Option<bool>,
    pub header: Option<HashMap<String, String>>,
    pub http: Option<String>,
    pub interval: Option<String>,
    pub method: Option<String>,
    pub name: Option<String>,
    pub notes: Option<String>,
    pub shell: Option<String>,
    pub status: Option<String>,
    pub success_before_passing: Option<u64>,
    pub tcp: Option<String>,
    pub timeout: Option<String>,
    pub tls_server_name: Option<String>,
    pub tlk_skip_verify: Option<String>,
    pub ttl: Option<String>,
}

/// One health check with its definition.
#[derive(Debug, Default)]
pub struct HealthCheck {
    pub check_id: Option<String>,
    pub create_index: Option<u64>,
    pub definition: Option<HealthCheckDefinition>,
    pub modify_index: Option<u64>,
    pub name: Option<String>,
    pub namespace: Option<String>,
    pub node: Option<String>,
    pub notes: Option<String>,
    pub output: Option<String>,
    pub service_id: Option<String>,
    pub service_name: Option<String>,
    pub service_tags: Option<Vec<String>>,
    pub status: Option<String>,
    pub ty: Option<String>,
}

/// Lists the checks registered with the local agent.
/// 
/// * Path: `agent/checks`
/// * Method: GET
#[derive(Debug, Default)]
pub struct ListChecksRequest {
    pub features: Option<Features>,
    pub ns: Option<String>,
}

impl ListChecksRequest {
    /// The endpoint description this request denotes.
    pub fn to_endpoint(&self) -> (e: Endpoint)
        ensures
            e.path@ == "agent/checks"@,
            e.method == Method::Get,
            e.body is Empty,
            qview(e.query@) == opt_pair("ns"@, ov(self.ns)),
    {
        let mut query: Vec<QueryPair> = Vec::new();
        push_opt(&mut query, "ns", &self.ns);
        proof {
            assert(qview(query@) =~= opt_pair("ns"@, ov(self.ns)));
        }
        Endpoint {
            path: String::from_str("agent/checks"),
            method: Method::Get,
            body: RequestBody::Empty,
            query,
        }
    }
}

impl FeaturedEndpoint for ListChecksRequest {
    open spec fn spec_features(&self) -> Option<FeaturesV> {
        fov(self.features)
    }

    fn features(&self) -> (f: Option<Features>) {
        match &self.features {
            Some(x) => Some(x.clone()),
            None => None,
        }
    }
}

/// Adds a new check to the local agent.
/// 
/// * Path: `agent/check/register`
/// * Method: PUT
#[derive(Debug, Default)]
pub struct RegisterCheckRequest {
    pub features: Option<Features>,
    pub name: String,
    pub alias_node: Option<String>,
    pub alias_service: Option<String>,
    pub args: Option<Vec<String>>,
    pub body: Option<String>,
    pub deregister_critical_service_after: Option<String>,
    pub docker_container_id: Option<String>,
    pub failures_before_critical: Option<u64>,
    pub grpc: Option<String>,
    pub grpc_use_tls: Option<bool>,
    pub h2_ping: Option<String>,
    pub header: Option<HashMap<String, String>>,
    pub http: Option<String>,
    pub id: Option<String>,
    pub interval: Option<String>,
    pub method: Option<String>,
    pub namespace: Option<String>,
    pub notes: Option<String>,
    pub output_max_size: Option<u64>,
    pub service_id: Option<String>,
    pub status: Option<String>,
    pub success_before_passing: Option<u64>,
    pub tcp: Option<String>,
    pub timeout: Option<String>,
    pub tls_server_name: Option<String>,
    pub tls_skip_verify: Option<String>,
    pub ttl: Option<String>,
}

impl RegisterCheckRequest {
    /// The endpoint description this request denotes; `body` holds the
    /// request's payload fields, already encoded by the serialization
    /// collaborator.
    pub fn to_endpoint(&self, body: Vec<u8>) -> (e: Endpoint)
        ensures
            e.path@ == "agent/check/register"@,
            e.method == Method::Put,
            e.body matches RequestBody::Structured(b) && b@ == body@,
            e.query@.len() == 0,
    {
        let query: Vec<QueryPair> = Vec::new();
        Endpoint {
            path: String::from_str("agent/check/register"),
            method: Method::Put,
            body: RequestBody::Structured(body),
            query,
        }
    }
}

impl FeaturedEndpoint for RegisterCheckRequest {
    open spec fn spec_features(&self) -> Option<FeaturesV> {
        fov(self.features)
    }

    fn features(&self) -> (f: Option<Features>) {
        match &self.features {
            Some(x) => Some(x.clone()),
            None => None,
        }
    }
}

/// Removes a check from the local agent.
/// 
/// * Path: `agent/check/deregister/{check}`
/// * Method: PUT
#[derive(Debug, Default)]
pub struct DeregisterCheckRequest {
    pub features: Option<Features>,
    pub check: String,
    pub ns: Option<String>,
}

impl DeregisterCheckRequest {
    /// The endpoint description this request denotes.
    pub fn to_endpoint(&self) -> (e: Endpoint)
        ensures
            e.path@ == "agent/check/deregister/"@ + self.check@,
            e.method == Method::Put,
            e.body is Empty,
            qview(e.query@) == opt_pair("ns"@, ov(self.ns)),
    {
        let mut query: Vec<QueryPair> = Vec::new();
        push_opt(&mut query, "ns", &self.ns);
        proof {
            assert(qview(query@) =~= opt_pair("ns"@, ov(self.ns)));
        }
        Endpoint {
            path: String::from_str("agent/check/deregister/").concat(self.check.as_str()),
            method: Method::Put,
            body: RequestBody::Empty,
            query,
        }
    }
}

impl FeaturedEndpoint for DeregisterCheckRequest {
    open spec fn spec_features(&self) -> Option<FeaturesV> {
        fov(self.features)
    }

    fn features(&self) -> (f: Option<Features>) {
        match &self.features {
            Some(x) => Some(x.clone()),
            None => None,
        }
    }
}

/// Sets the status of a TTL check to passing and resets the TTL clock.
/// 
/// * Path: `agent/check/pass/{check}`
/// * Method: PUT
#[derive(Debug, Default)]
pub struct TtlCheckPassRequest {
    pub features: Option<Features>,
    pub check: String,
    pub note: Option<String>,
    pub ns: Option<String>,
}

impl TtlCheckPassRequest {
    /// The endpoint description this request denotes; `body` holds the
    /// request's payload fields, already encoded by the serialization
    /// collaborator.
    pub fn to_endpoint(&self, body: Vec<u8>) -> (e: Endpoint)
        ensures
            e.path@ == "agent/check/pass/"@ + self.check@,
            e.method == Method::Put,
            e.body matches RequestBody::Structured(b) && b@ == body@,
            qview(e.query@) == opt_pair("ns"@, ov(self.ns)),
    {
        let mut query: Vec<QueryPair> = Vec::new();
        push_opt(&mut query, "ns", &self.ns);
        proof {
            assert(qview(query@) =~= opt_pair("ns"@, ov(self.ns)));
        }
        Endpoint {
            path: String::from_str("agent/check/pass/").concat(self.check.as_str()),
            method: Method::Put,
            body: RequestBody::Structured(body),
            query,
        }
    }
}

impl FeaturedEndpoint for TtlCheckPassRequest {
    open spec fn spec_features(&self) -> Option<FeaturesV> {
        fov(self.features)
    }

    fn features(&self) -> (f: Option<Features>) {
        match &self.features {
            Some(x) => Some(x.clone()),
            None => None,
        }
    }
}

/// Sets the status of a TTL check to warning and resets the TTL clock.
/// 
/// * Path: `agent/check/warn/{check}`
/// * Method: PUT
#[derive(Debug, Default)]
pub struct TtlCheckWarnRequest {
    pub features: Option<Features>,
    pub check: String,
    pub note: Option<String>,
    pub ns: Option<String>,
}

impl TtlCheckWarnRequest {
    /// The endpoint description this request denotes; `body` holds the
    /// request's payload fields, already encoded by the serialization
    /// collaborator.
    pub fn to_endpoint(&self, body: Vec<u8>) -> (e: Endpoint)
        ensures
            e.path@ == "agent/check/warn/"@ + self.check@,
            e.method == Method::Put,
            e.body matches RequestBody::Structured(b) && b@ == body@,
            qview(e.query@) == opt_pair("ns"@, ov(self.ns)),
    {
        let mut query: Vec<QueryPair> = Vec::new();
        push_opt(&mut query, "ns", &self.ns);
        proof {
            assert(qview(query@) =~= opt_pair("ns"@, ov(self.ns)));
        }
        Endpoint {
            path: String::from_str("agent/check/warn/").concat(self.check.as_str()),
            method: Method::Put,
            body: RequestBody::Structured(body),
            query,
        }
    }
}

impl FeaturedEndpoint for TtlCheckWarnRequest {
    open spec fn spec_features(&self) -> Option<FeaturesV> {
        fov(self.features)
    }

    fn features(&self) -> (f: Option<Features>) {
        match &self.features {
            Some(x) => Some(x.clone()),
            None => None,
        }
    }
}

/// Sets the status of a TTL check to critical and resets the TTL clock.
/// 
/// * Path: `agent/check/fail/{check}`
/// * Method: PUT
#[derive(Debug, Default)]
pub struct TtlCheckFailRequest {
    pub features: Option<Features>,
    pub check: String,
    pub note: Option<String>,
    pub ns: Option<String>,
}

impl TtlCheckFailRequest {
    /// The endpoint description this request denotes; `body` holds the
    /// request's payload fields, already encoded by the serialization
    /// collaborator.
    pub fn to_endpoint(&self, body: Vec<u8>) -> (e: Endpoint)
        ensures
            e.path@ == "agent/check/fail/"@ + self.check@,
            e.method == Method::Put,
            e.body matches RequestBody::Structured(b) && b@ == body@,
            qview(e.query@) == opt_pair("ns"@, ov(self.ns)),
    {
        let mut query: Vec<QueryPair> = Vec::new();
        push_opt(&mut query, "ns", &self.ns);
        proof {
            assert(qview(query@) =~= opt_pair("ns"@, ov(self.ns)));
        }
        Endpoint {
            path: String::from_str("agent/check/fail/").concat(self.check.as_str()),
            method: Method::Put,
            body: RequestBody::Structured(body),
            query,
        }
    }
}

impl FeaturedEndpoint for TtlCheckFailRequest {
    open spec fn spec_features(&self) -> Option<FeaturesV> {
        fov(self.features)
    }

    fn features(&self) -> (f: Option<Features>) {
        match &self.features {
            Some(x) => Some(x.clone()),
            None => None,
        }
    }
}

/// Sets the status of a TTL check and resets the TTL clock.
/// 
/// * Path: `agent/check/update/{check}`
/// * Method: PUT
#[derive(Debug, Default)]
pub struct TtlCheckUpdateRequest {
    pub features: Option<Features>,
    pub check: String,
    pub ns: Option<String>,
    pub output: Option<String>,
    pub status: Option<String>,
}

impl TtlCheckUpdateRequest {
    /// The endpoint description this request denotes; `body` holds the
    /// request's payload fields, already encoded by the serialization
    /// collaborator.
    pub fn to_endpoint(&self, body: Vec<u8>) -> (e: Endpoint)
        ensures
            e.path@ == "agent/check/update/"@ + self.check@,
            e.method == Method::Put,
            e.body matches RequestBody::Structured(b) && b@ == body@,
            qview(e.query@) == opt_pair("ns"@, ov(self.ns)),
    {
        let mut query: Vec<QueryPair> = Vec::new();
        push_opt(&mut query, "ns", &self.ns);
        proof {
            assert(qview(query@) =~= opt_pair("ns"@, ov(self.ns)));
        }
        Endpoint {
            path: String::from_str("agent/check/update/").concat(self.check.as_str()),
            method: Method::Put,
            body: RequestBody::Structured(body),
            query,
        }
    }
}

impl FeaturedEndpoint for TtlCheckUpdateRequest {
    open spec fn spec_features(&self) -> Option<FeaturesV> {
        fov(self.features)
    }

    fn features(&self) -> (f: Option<Features>) {
        match &self.features {
            Some(x) => Some(x.clone()),
            None => None,
        }
    }
}

/// A check description embedded in catalog registrations.
#[derive(Debug, Default)]
pub struct CheckRequest {
    pub check_id: Option<String>,
    pub definition: Option<String>,
    pub exposed_port: Option<u64>,
    pub id: Option<String>,
    pub name: String,
    pub namespace: Option<String>,
    pub node: Option<String>,
    pub notes: Option<String>,
    pub output: Option<String>,
    pub service_id: Option<String>,
    pub service_name: Option<String>,
    pub status: Option<String>,
    pub ty: Option<String>,
}

/// A check definition embedded in registrations.
#[derive(Debug, Default)]
pub struct CheckDefinitionRequest {
    pub body: Option<String>,
    pub deregister_critical_service_after_duration: Option<String>,
    pub header: Option<HashMap<String, String>>,
    pub http: Option<String>,
    pub interval_duration: Option<String>,
    pub method: Option<String>,
    pub timeout_duration: Option<String>,
    pub tls_server_name: Option<String>,
    pub tls_skip_verify: Option<bool>,
    pub tcp: Option<String>,
}

/// A check definition as the agent reports it.
#[derive(Debug)]
pub struct CheckDefinitionResponse {
    pub body: Option<String>,
    pub deregister_critical_service_after_duration: Option<String>,
    pub header: Option<HashMap<String, String>>,
    pub http: Option<String>,
    pub interval_duration: Option<String>,
    pub method: Option<String>,
    pub timeout_duration: Option<String>,
    pub tls_server_name: Option<String>,
    pub tls_skip_verify: Option<bool>,
    pub tcp: Option<String>,
}

/// One check as the list-checks endpoint returns it.
#[derive(Debug)]
pub struct AgentCheckResponse {
    pub check_id: String,
    pub exposed_port: Option<u64>,
    pub definition: CheckDefinitionResponse,
    pub name: String,
    pub namespace: Option<String>,
    pub node: String,
    pub notes: String,
    pub output: String,
    pub service_id: String,
    pub service_name: String,
    pub status: String,
    pub ty: String,
}

/// A check as returned inside service definitions.
#[derive(Debug)]
pub struct CheckResponse {
    pub alias_node: Option<String>,
    pub alias_service: Option<String>,
    pub args: Option<Vec<String>>,
    pub body: Option<String>,
    pub deregister_critical_service_after: Option<String>,
    pub docker_container_id: Option<String>,
    pub failures_before_critical: Option<u64>,
    pub grpc: Option<String>,
    pub grpc_use_tls: Option<bool>,
    pub h2_ping: Option<String>,
    pub header: Option<HashMap<String, String>>,
    pub http: Option<String>,
    pub id: Option<String>,
    pub interval: Option<String>,
    pub method: Option<String>,
    pub name: String,
    pub namespace: Option<String>,
    pub notes: Option<String>,
    pub output_max_size: Option<u64>,
    pub service_id: Option<String>,
    pub status: Option<String>,
    pub success_before_passing: Option<u64>,
    pub tcp: Option<String>,
    pub timeout: Option<String>,
    pub tls_server_name: Option<String>,
    pub tls_skip_verify: Option<String>,
    pub ttl: Option<String>,
}

} // verus!
