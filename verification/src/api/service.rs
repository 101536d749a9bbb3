//! Endpoint schemas for agent services.

use vstd::prelude::*;

use std::collections::HashMap;

use crate::api::endpoint::{
    opt_pair, ov, push_bool, push_opt, qview, Endpoint, Method, QueryPair, RequestBody,
};
use crate::api::features::{fov, FeaturedEndpoint, Features, FeaturesV};


verus! {

/// The weights a service carries for DNS balancing.
#[derive(Debug, Default)]
pub struct AgentWeights {
    pub passing: Option<u64>,
    pub warning: Option<u64>,
}

/// One tagged address of a service.
#[derive(Debug, Default)]
pub struct AgentServiceTaggedAddress {
    pub address: Option<String>,
    pub port: Option<u64>,
}

/// Proxy configuration of a Connect service.
#[derive(Debug, Default)]
pub struct AgentServiceConnectProxy {
    pub config: Option<HashMap<String, String>>,
    pub destination_service_id: Option<String>,
    pub destination_service_name: Option<String>,
    pub expose: Option<crate::api::connect::ExposeConfig>,
    pub local_service_address: Option<String>,
    pub local_service_port: Option<u64>,
    pub local_service_socket_path: Option<String>,
    pub mesh_gateway: Option<crate::api::connect::MeshGatewayConfig>,
    pub mode: Option<String>,
    pub transparent_proxy: Option<crate::api::connect::TransparentProxyConfig>,
    pub upstreams: Option<Vec<crate::api::connect::Upstream>>,
}

/// A sidecar service registration.
#[derive(Debug, Default)]
pub struct AgentServiceRegistration {
    pub address: Option<String>,
    pub check: Option<crate::api::check::AgentServiceCheck>,
    pub checks: Option<Vec<crate::api::check::AgentServiceCheck>>,
    pub connect: Option<Box<AgentServiceConnect>>,
    pub enable_tag_override: Option<bool>,
    pub id: Option<String>,
    pub kind: Option<String>,
    pub meta: Option<HashMap<String, String>>,
    pub name: Option<String>,
    pub ns: Option<String>,
    pub port: Option<u64>,
    pub proxy: Option<AgentServiceConnectProxy>,
    pub tagged_addresses: Option<HashMap<String, String>>,
    pub tags: Option<Vec<String>>,
    pub weights: Option<AgentWeights>,
}

/// Connect configuration of a service.
#[derive(Debug, Default)]
pub struct AgentServiceConnect {
    pub native: Option<bool>,
    pub sidecar_service: Option<AgentServiceRegistration>,
}

/// One service as an agent reports it.
#[derive(Debug, Default)]
pub struct AgentService {
    pub address: Option<String>,
    pub connect: Option<AgentServiceConnect>,
    pub content_hash: Option<String>,
    pub create_index: Option<u64>,
    pub datacenter: Option<String>,
    pub enable_tag_override: Option<bool>,
    pub id: Option<String>,
    pub kind: Option<String>,
    pub meta: Option<HashMap<String, String>>,
    pub modify_index: Option<u64>,
    pub name: Option<String>,
    pub namespace: Option<String>,
    pub port: Option<u64>,
    pub proxy: Option<AgentServiceConnectProxy>,
    pub service: Option<String>,
    pub socket_path: Option<String>,
    pub tagged_addresses: Option<HashMap<String, AgentServiceTaggedAddress>>,
    pub tags: Option<Vec<String>>,
    pub weights: Option<AgentWeights>,
}

/// Aggregated health of one service.
#[derive(Debug, Default)]
pub struct AgentServiceChecksInfo {
    pub aggregated_status: String,
    pub checks: Vec<crate::api::check::HealthCheck>,
    pub service: AgentService,
}

/// Lists the services registered with the local agent.
/// 
/// * Path: `agent/services`
/// * Method: GET
#[derive(Debug, Default)]
pub struct ListServicesRequest {
    pub features: Option<Features>,
    pub ns: Option<String>,
}

impl ListServicesRequest {
    /// The endpoint description this request denotes.
    pub fn to_endpoint(&self) -> (e: Endpoint)
        ensures
            e.path@ == "agent/services"@,
            e.method == Method::Get,
            e.body is Empty,
            qview(e.query@) == opt_pair("ns"@, ov(self.ns)),
    {
        let mut query: Vec<QueryPair> = Vec::new();
        push_opt(&mut query, "ns", &self.ns);
        proof {
            assert(qview(query@) =~= opt_pair("ns"@, ov(self.ns)));
        }
        Endpoint {
            path: String::from_str("agent/services"),
            method: Method::Get,
            body: RequestBody::Empty,
            query,
        }
    }
}

impl FeaturedEndpoint for ListServicesRequest {
    open spec fn spec_features(&self) -> Option<FeaturesV> {
        fov(self.features)
    }

    fn features(&self) -> (f: Option<Features>) {
        match &self.features {
            Some(x) => Some(x.clone()),
            None => None,
        }
    }
}

/// Reads a service's configuration on the local agent.
/// 
/// * Path: `agent/service/{name}`
/// * Method: GET
#[derive(Debug, Default)]
pub struct ReadServiceRequest {
    pub features: Option<Features>,
    pub name: String,
    pub ns: Option<String>,
}

impl ReadServiceRequest {
    /// The endpoint description this request denotes.
    pub fn to_endpoint(&self) -> (e: Endpoint)
        ensures
            e.path@ == "agent/service/"@ + self.name@,
            e.method == Method::Get,
            e.body is Empty,
            qview(e.query@) == opt_pair("ns"@, ov(self.ns)),
    {
        let mut query: Vec<QueryPair> = Vec::new();
        push_opt(&mut query, "ns", &self.ns);
        proof {
            assert(qview(query@) =~= opt_pair("ns"@, ov(self.ns)));
        }
        Endpoint {
            path: String::from_str("agent/service/").concat(self.name.as_str()),
            method: Method::Get,
            body: RequestBody::Empty,
            query,
        }
    }
}

impl FeaturedEndpoint for ReadServiceRequest {
    open spec fn spec_features(&self) -> Option<FeaturesV> {
        fov(self.features)
    }

    fn features(&self) -> (f: Option<Features>) {
        match &self.features {
            Some(x) => Some(x.clone()),
            None => None,
        }
    }
}

/// Reads the health of the services with a given name.
/// 
/// * Path: `agent/health/service/name/{name}`
/// * Method: GET
#[derive(Debug, Default)]
pub struct ServiceHealthRequest {
    pub features: Option<Features>,
    pub name: String,
    pub ns: Option<String>,
}

impl ServiceHealthRequest {
    /// The endpoint description this request denotes.
    pub fn to_endpoint(&self) -> (e: Endpoint)
        ensures
            e.path@ == "agent/health/service/name/"@ + self.name@,
            e.method == Method::Get,
            e.body is Empty,
            qview(e.query@) == opt_pair("ns"@, ov(self.ns)),
    {
        let mut query: Vec<QueryPair> = Vec::new();
        push_opt(&mut query, "ns", &self.ns);
        proof {
            assert(qview(query@) =~= opt_pair("ns"@, ov(self.ns)));
        }
        Endpoint {
            path: String::from_str("agent/health/service/name/").concat(self.name.as_str()),
            method: Method::Get,
            body: RequestBody::Empty,
            query,
        }
    }
}

impl FeaturedEndpoint for ServiceHealthRequest {
    open spec fn spec_features(&self) -> Option<FeaturesV> {
        fov(self.features)
    }

    fn features(&self) -> (f: Option<Features>) {
        match &self.features {
            Some(x) => Some(x.clone()),
            None => None,
        }
    }
}

/// Reads the health of the service with a given identifier.
/// 
/// * Path: `agent/health/service/id/{id}`
/// * Method: GET
#[derive(Debug, Default)]
pub struct ServiceHealthByIdRequest {
    pub features: Option<Features>,
    pub id: String,
    pub ns: Option<String>,
}

impl ServiceHealthByIdRequest {
    /// The endpoint description this request denotes.
    pub fn to_endpoint(&self) -> (e: Endpoint)
        ensures
            e.path@ == "agent/health/service/id/"@ + self.id@,
            e.method == Method::Get,
            e.body is Empty,
            qview(e.query@) == opt_pair("ns"@, ov(self.ns)),
    {
        let mut query: Vec<QueryPair> = Vec::new();
        push_opt(&mut query, "ns", &self.ns);
        proof {
            assert(qview(query@) =~= opt_pair("ns"@, ov(self.ns)));
        }
        Endpoint {
            path: String::from_str("agent/health/service/id/").concat(self.id.as_str()),
            method: Method::Get,
            body: RequestBody::Empty,
            query,
        }
    }
}

impl FeaturedEndpoint for ServiceHealthByIdRequest {
    open spec fn spec_features(&self) -> Option<FeaturesV> {
        fov(self.features)
    }

    fn features(&self) -> (f: Option<Features>) {
        match &self.features {
            Some(x) => Some(x.clone()),
            None => None,
        }
    }
}

/// Adds a new service to the local agent.
/// 
/// * Path: `agent/service/register`
/// * Method: PUT
#[derive(Debug, Default)]
pub struct RegisterServiceRequest {
    pub features: Option<Features>,
    pub address: Option<String>,
    pub check: Option<crate::api::check::AgentServiceCheck>,
    pub checks: Option<Vec<crate::api::check::AgentServiceCheck>>,
    pub connect: Option<Box<AgentServiceConnect>>,
    pub enable_tag_override: Option<bool>,
    pub id: Option<String>,
    pub kind: Option<String>,
    pub meta: Option<HashMap<String, String>>,
    pub name: Option<String>,
    pub ns: Option<String>,
    pub port: Option<u64>,
    pub proxy: Option<AgentServiceConnectProxy>,
    pub tagged_addresses: Option<HashMap<String, String>>,
    pub tags: Option<Vec<String>>,
    pub weights: Option<AgentWeights>,
}

impl RegisterServiceRequest {
    /// The endpoint description this request denotes; `body` holds the
    /// request's payload fields, already encoded by the serialization
    /// collaborator.
    pub fn to_endpoint(&self, body: Vec<u8>) -> (e: Endpoint)
        ensures
            e.path@ == "agent/service/register"@,
            e.method == Method::Put,
            e.body matches RequestBody::Structured(b) && b@ == body@,
            e.query@.len() == 0,
    {
        let query: Vec<QueryPair> = Vec::new();
        Endpoint {
            path: String::from_str("agent/service/register"),
            method: Method::Put,
            body: RequestBody::Structured(body),
            query,
        }
    }
}

impl FeaturedEndpoint for RegisterServiceRequest {
    open spec fn spec_features(&self) -> Option<FeaturesV> {
        fov(self.features)
    }

    fn features(&self) -> (f: Option<Features>) {
        match &self.features {
            Some(x) => Some(x.clone()),
            None => None,
        }
    }
}

/// Removes a service from the local agent.
/// 
/// * Path: `agent/service/deregister/{id}`
/// * Method: PUT
#[derive(Debug, Default)]
pub struct DeregisterServiceRequest {
    pub features: Option<Features>,
    pub id: String,
    pub ns: Option<String>,
}

impl DeregisterServiceRequest {
    /// The endpoint description this request denotes.
    pub fn to_endpoint(&self) -> (e: Endpoint)
        ensures
            e.path@ == "agent/service/deregister/"@ + self.id@,
            e.method == Method::Put,
            e.body is Empty,
            qview(e.query@) == opt_pair("ns"@, ov(self.ns)),
    {
        let mut query: Vec<QueryPair> = Vec::new();
        push_opt(&mut query, "ns", &self.ns);
        proof {
            assert(qview(query@) =~= opt_pair("ns"@, ov(self.ns)));
        }
        Endpoint {
            path: String::from_str("agent/service/deregister/").concat(self.id.as_str()),
            method: Method::Put,
            body: RequestBody::Empty,
            query,
        }
    }
}

impl FeaturedEndpoint for DeregisterServiceRequest {
    open spec fn spec_features(&self) -> Option<FeaturesV> {
        fov(self.features)
    }

    fn features(&self) -> (f: Option<Features>) {
        match &self.features {
            Some(x) => Some(x.clone()),
            None => None,
        }
    }
}

/// Places a service into, or takes it out of, maintenance mode.
/// 
/// * Path: `agent/service/maintenance/{id}`
/// * Method: PUT
#[derive(Debug, Default)]
pub struct EnableMaintenanceRequest {
    pub features: Option<Features>,
    pub id: String,
    pub enable: bool,
    pub ns: Option<String>,
}

impl EnableMaintenanceRequest {
    /// The endpoint description this request denotes.
    pub fn to_endpoint(&self) -> (e: Endpoint)
        ensures
            e.path@ == "agent/service/maintenance/"@ + self.id@,
            e.method == Method::Put,
            e.body is Empty,
            qview(e.query@) == seq![("enable"@, Some(crate::text::bool_str(self.enable)))] + opt_pair("ns"@, ov(self.ns)),
    {
        let mut query: Vec<QueryPair> = Vec::new();
        push_bool(&mut query, "enable", self.enable);
        push_opt(&mut query, "ns", &self.ns);
        proof {
            assert(qview(query@) =~= seq![("enable"@, Some(crate::text::bool_str(self.enable)))] + opt_pair("ns"@, ov(self.ns)));
        }
        Endpoint {
            path: String::from_str("agent/service/maintenance/").concat(self.id.as_str()),
            method: Method::Put,
            body: RequestBody::Empty,
            query,
        }
    }
}

impl FeaturedEndpoint for EnableMaintenanceRequest {
    open spec fn spec_features(&self) -> Option<FeaturesV> {
        fov(self.features)
    }

    fn features(&self) -> (f: Option<Features>) {
        match &self.features {
            Some(x) => Some(x.clone()),
            None => None,
        }
    }
}

/// Connect configuration as returned.
#[derive(Debug)]
pub struct ConnectResponse {
    pub native: Option<bool>,
    pub sidecar_service: Option<SidecarServiceResponse>,
}

/// Service weights as returned.
#[derive(Debug)]
pub struct WeightsResponse {
    pub passing: u64,
    pub warning: u64,
}

/// A sidecar service as returned.
#[derive(Debug)]
pub struct SidecarServiceResponse {
    pub address: Option<String>,
    pub check: Option<crate::api::check::CheckResponse>,
    pub checks: Option<Vec<crate::api::check::CheckResponse>>,
    pub enable_tag_override: Option<bool>,
    pub id: Option<String>,
    pub kind: Option<String>,
    pub meta: Option<HashMap<String, String>>,
    pub name: String,
    pub ns: Option<String>,
    pub port: Option<u64>,
    pub proxy: Option<crate::api::connect::ProxyResponse>,
    pub tagged_addresses: Option<HashMap<String, String>>,
    pub tags: Option<Vec<String>>,
    pub weights: Option<WeightsResponse>,
}

/// One service definition as returned.
#[derive(Debug)]
pub struct ServiceResponse {
    pub address: Option<String>,
    pub check: Option<crate::api::check::CheckResponse>,
    pub checks: Option<Vec<crate::api::check::CheckResponse>>,
    pub connect: Option<ConnectResponse>,
    pub enable_tag_override: Option<bool>,
    pub id: Option<String>,
    pub kind: Option<String>,
    pub meta: Option<HashMap<String, String>>,
    pub name: Option<String>,
    pub ns: Option<String>,
    pub port: Option<u64>,
    pub proxy: Option<crate::api::connect::ProxyResponse>,
    pub tagged_addresses: Option<HashMap<String, String>>,
    pub tags: Option<Vec<String>>,
    pub weights: Option<WeightsResponse>,
}

} // verus!
