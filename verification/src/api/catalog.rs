//! Endpoint schemas for the service catalog.

use vstd::prelude::*;

use std::collections::HashMap;

use crate::api::endpoint::{
    opt_pair, ov, push_opt, qview, Endpoint, Method, QueryPair, RequestBody,
};
use crate::api::features::{fov, FeaturedEndpoint, Features, FeaturesV};


verus! {

/// One service instance as the catalog lists it.
#[derive(Debug, Default)]
pub struct CatalogService {
    pub address: Option<String>,
    pub create_index: Option<u64>,
    pub datacenter: Option<String>,
    pub id: Option<String>,
    pub node_meta: Option<HashMap<String, String>>,
    pub modify_index: Option<u64>,
    pub namespace: Option<String>,
    pub node: Option<String>,
    pub service_address: Option<String>,
    pub service_connect: Option<crate::api::service::AgentServiceConnect>,
    pub service_enable_tag_override: Option<bool>,
    pub service_id: Option<String>,
    pub service_kind: Option<String>,
    pub service_meta: Option<HashMap<String, String>>,
    pub service_name: Option<String>,
    pub service_port: Option<u64>,
    pub service_proxy: Option<crate::api::service::AgentServiceConnectProxy>,
    pub service_socket_path: Option<String>,
    pub service_tags: Option<Vec<String>>,
    pub service_weights: Option<crate::api::service::AgentWeights>,
    pub tagged_addresses: Option<HashMap<String, String>>,
}

/// One node as the catalog lists it.
#[derive(Debug, Default)]
pub struct Node {
    pub address: String,
    pub create_index: u64,
    pub datacenter: String,
    pub id: String,
    pub meta: Option<HashMap<String, String>>,
    pub modify_index: u64,
    pub node: String,
    pub tagged_addresses: Option<HashMap<String, String>>,
}

/// Registers or updates entries in the catalog.
/// 
/// * Path: `catalog/register`
/// * Method: PUT
#[derive(Debug, Default)]
pub struct RegisterEntityRequest {
    pub features: Option<Features>,
    pub node: String,
    pub address: String,
    pub check: Option<crate::api::check::AgentCheck>,
    pub checks: Option<Vec<crate::api::check::AgentCheck>>,
    pub datacenter: Option<String>,
    pub tagged_addresses: Option<HashMap<String, String>>,
    pub node_meta: Option<HashMap<String, String>>,
    pub ns: Option<String>,
    pub service: Option<crate::api::service::AgentService>,
    pub skip_node_update: Option<bool>,
}

impl RegisterEntityRequest {
    /// The endpoint description this request denotes; `body` holds the
    /// request's payload fields, already encoded by the serialization
    /// collaborator.
    pub fn to_endpoint(&self, body: Vec<u8>) -> (e: Endpoint)
        ensures
            e.path@ == "catalog/register"@,
            e.method == Method::Put,
            e.body matches RequestBody::Structured(b) && b@ == body@,
            e.query@.len() == 0,
    {
        let query: Vec<QueryPair> = Vec::new();
        Endpoint {
            path: String::from_str("catalog/register"),
            method: Method::Put,
            body: RequestBody::Structured(body),
            query,
        }
    }
}

impl FeaturedEndpoint for RegisterEntityRequest {
    open spec fn spec_features(&self) -> Option<FeaturesV> {
        fov(self.features)
    }

    fn features(&self) -> (f: Option<Features>) {
        match &self.features {
            Some(x) => Some(x.clone()),
            None => None,
        }
    }
}

/// Removes entries from the catalog directly.
/// 
/// * Path: `catalog/deregister`
/// * Method: PUT
#[derive(Debug, Default)]
pub struct DeregisterEntityRequest {
    pub features: Option<Features>,
    pub node: String,
    pub check_id: Option<String>,
    pub datacenter: Option<String>,
    pub namespace: Option<String>,
    pub service_id: Option<String>,
}

impl DeregisterEntityRequest {
    /// The endpoint description this request denotes; `body` holds the
    /// request's payload fields, already encoded by the serialization
    /// collaborator.
    pub fn to_endpoint(&self, body: Vec<u8>) -> (e: Endpoint)
        ensures
            e.path@ == "catalog/deregister"@,
            e.method == Method::Put,
            e.body matches RequestBody::Structured(b) && b@ == body@,
            e.query@.len() == 0,
    {
        let query: Vec<QueryPair> = Vec::new();
        Endpoint {
            path: String::from_str("catalog/deregister"),
            method: Method::Put,
            body: RequestBody::Structured(body),
            query,
        }
    }
}

impl FeaturedEndpoint for DeregisterEntityRequest {
    open spec fn spec_features(&self) -> Option<FeaturesV> {
        fov(self.features)
    }

    fn features(&self) -> (f: Option<Features>) {
        match &self.features {
            Some(x) => Some(x.clone()),
            None => None,
        }
    }
}

/// Lists all known datacenters.
/// 
/// * Path: `catalog/datacenters`
/// * Method: GET
#[derive(Debug, Default)]
pub struct ListDatacentersRequest {
    pub features: Option<Features>,
}

impl ListDatacentersRequest {
    /// The endpoint description this request denotes.
    pub fn to_endpoint(&self) -> (e: Endpoint)
        ensures
            e.path@ == "catalog/datacenters"@,
            e.method == Method::Get,
            e.body is Empty,
            e.query@.len() == 0,
    {
        let query: Vec<QueryPair> = Vec::new();
        Endpoint {
            path: String::from_str("catalog/datacenters"),
            method: Method::Get,
            body: RequestBody::Empty,
            query,
        }
    }
}

impl FeaturedEndpoint for ListDatacentersRequest {
    open spec fn spec_features(&self) -> Option<FeaturesV> {
        fov(self.features)
    }

    fn features(&self) -> (f: Option<Features>) {
        match &self.features {
            Some(x) => Some(x.clone()),
            None => None,
        }
    }
}

/// Lists the nodes registered in a datacenter.
/// 
/// * Path: `catalog/nodes`
/// * Method: GET
#[derive(Debug, Default)]
pub struct ListNodesRequest {
    pub features: Option<Features>,
    pub dc: Option<String>,
    pub near: Option<String>,
}

impl ListNodesRequest {
    /// The endpoint description this request denotes.
    pub fn to_endpoint(&self) -> (e: Endpoint)
        ensures
            e.path@ == "catalog/nodes"@,
            e.method == Method::Get,
            e.body is Empty,
            qview(e.query@) == opt_pair("dc"@, ov(self.dc)) + opt_pair("near"@, ov(self.near)),
    {
        let mut query: Vec<QueryPair> = Vec::new();
        push_opt(&mut query, "dc", &self.dc);
        push_opt(&mut query, "near", &self.near);
        proof {
            assert(qview(query@) =~= opt_pair("dc"@, ov(self.dc)) + opt_pair("near"@, ov(self.near)));
        }
        Endpoint {
            path: String::from_str("catalog/nodes"),
            method: Method::Get,
            body: RequestBody::Empty,
            query,
        }
    }
}

impl FeaturedEndpoint for ListNodesRequest {
    open spec fn spec_features(&self) -> Option<FeaturesV> {
        fov(self.features)
    }

    fn features(&self) -> (f: Option<Features>) {
        match &self.features {
            Some(x) => Some(x.clone()),
            None => None,
        }
    }
}

/// Lists the services registered in a datacenter.
/// 
/// * Path: `catalog/services`
/// * Method: GET
#[derive(Debug, Default)]
pub struct ListServicesRequest {
    pub features: Option<Features>,
    pub dc: Option<String>,
    pub ns: Option<String>,
}

impl ListServicesRequest {
    /// The endpoint description this request denotes.
    pub fn to_endpoint(&self) -> (e: Endpoint)
        ensures
            e.path@ == "catalog/services"@,
            e.method == Method::Get,
            e.body is Empty,
            qview(e.query@) == opt_pair("dc"@, ov(self.dc)) + opt_pair("ns"@, ov(self.ns)),
    {
        let mut query: Vec<QueryPair> = Vec::new();
        push_opt(&mut query, "dc", &self.dc);
        push_opt(&mut query, "ns", &self.ns);
        proof {
            assert(qview(query@) =~= opt_pair("dc"@, ov(self.dc)) + opt_pair("ns"@, ov(self.ns)));
        }
        Endpoint {
            path: String::from_str("catalog/services"),
            method: Method::Get,
            body: RequestBody::Empty,
            query,
        }
    }
}

impl FeaturedEndpoint for ListServicesRequest {
    open spec fn spec_features(&self) -> Option<FeaturesV> {
        fov(self.features)
    }

    fn features(&self) -> (f: Option<Features>) {
        match &self.features {
            Some(x) => Some(x.clone()),
            None => None,
        }
    }
}

/// Lists the nodes providing a service in a datacenter.
/// 
/// * Path: `catalog/service/{service}`
/// * Method: GET
#[derive(Debug, Default)]
pub struct ListNodesForServiceRequest {
    pub features: Option<Features>,
    pub service: String,
    pub dc: Option<String>,
    pub ns: Option<String>,
}

impl ListNodesForServiceRequest {
    /// The endpoint description this request denotes.
    pub fn to_endpoint(&self) -> (e: Endpoint)
        ensures
            e.path@ == "catalog/service/"@ + self.service@,
            e.method == Method::Get,
            e.body is Empty,
            qview(e.query@) == opt_pair("dc"@, ov(self.dc)) + opt_pair("ns"@, ov(self.ns)),
    {
        let mut query: Vec<QueryPair> = Vec::new();
        push_opt(&mut query, "dc", &self.dc);
        push_opt(&mut query, "ns", &self.ns);
        proof {
            assert(qview(query@) =~= opt_pair("dc"@, ov(self.dc)) + opt_pair("ns"@, ov(self.ns)));
        }
        Endpoint {
            path: String::from_str("catalog/service/").concat(self.service.as_str()),
            method: Method::Get,
            body: RequestBody::Empty,
            query,
        }
    }
}

impl FeaturedEndpoint for ListNodesForServiceRequest {
    open spec fn spec_features(&self) -> Option<FeaturesV> {
        fov(self.features)
    }

    fn features(&self) -> (f: Option<Features>) {
        match &self.features {
            Some(x) => Some(x.clone()),
            None => None,
        }
    }
}

/// Lists the nodes providing a Connect-capable service in a datacenter.
/// 
/// * Path: `catalog/connect/{service}`
/// * Method: GET
#[derive(Debug, Default)]
pub struct ListNodesForConnectServiceRequest {
    pub features: Option<Features>,
    pub service: String,
    pub dc: Option<String>,
    pub ns: Option<String>,
}

impl ListNodesForConnectServiceRequest {
    /// The endpoint description this request denotes.
    pub fn to_endpoint(&self) -> (e: Endpoint)
        ensures
            e.path@ == "catalog/connect/"@ + self.service@,
            e.method == Method::Get,
            e.body is Empty,
            qview(e.query@) == opt_pair("dc"@, ov(self.dc)) + opt_pair("ns"@, ov(self.ns)),
    {
        let mut query: Vec<QueryPair> = Vec::new();
        push_opt(&mut query, "dc", &self.dc);
        push_opt(&mut query, "ns", &self.ns);
        proof {
            assert(qview(query@) =~= opt_pair("dc"@, ov(self.dc)) + opt_pair("ns"@, ov(self.ns)));
        }
        Endpoint {
            path: String::from_str("catalog/connect/").concat(self.service.as_str()),
            method: Method::Get,
            body: RequestBody::Empty,
            query,
        }
    }
}

impl FeaturedEndpoint for ListNodesForConnectServiceRequest {
    open spec fn spec_features(&self) -> Option<FeaturesV> {
        fov(self.features)
    }

    fn features(&self) -> (f: Option<Features>) {
        match &self.features {
            Some(x) => Some(x.clone()),
            None => None,
        }
    }
}

/// Lists a node's registered services.
/// 
/// * Path: `catalog/node-services/{node}`
/// * Method: GET
#[derive(Debug, Default)]
pub struct ListNodeServicesRequest {
    pub features: Option<Features>,
    pub node: String,
    pub dc: Option<String>,
    pub ns: Option<String>,
}

impl ListNodeServicesRequest {
    /// The endpoint description this request denotes.
    pub fn to_endpoint(&self) -> (e: Endpoint)
        ensures
            e.path@ == "catalog/node-services/"@ + self.node@,
            e.method == Method::Get,
            e.body is Empty,
            qview(e.query@) == opt_pair("dc"@, ov(self.dc)) + opt_pair("ns"@, ov(self.ns)),
    {
        let mut query: Vec<QueryPair> = Vec::new();
        push_opt(&mut query, "dc", &self.dc);
        push_opt(&mut query, "ns", &self.ns);
        proof {
            assert(qview(query@) =~= opt_pair("dc"@, ov(self.dc)) + opt_pair("ns"@, ov(self.ns)));
        }
        Endpoint {
            path: String::from_str("catalog/node-services/").concat(self.node.as_str()),
            method: Method::Get,
            body: RequestBody::Empty,
            query,
        }
    }
}

impl FeaturedEndpoint for ListNodeServicesRequest {
    open spec fn spec_features(&self) -> Option<FeaturesV> {
        fov(self.features)
    }

    fn features(&self) -> (f: Option<Features>) {
        match &self.features {
            Some(x) => Some(x.clone()),
            None => None,
        }
    }
}

/// Lists the services associated with an ingress or terminating gateway.
/// 
/// * Path: `catalog/gateway-services/{gateway}`
/// * Method: GET
#[derive(Debug, Default)]
pub struct ListGatewayServicesRequest {
    pub features: Option<Features>,
    pub gateway: String,
    pub dc: Option<String>,
    pub ns: Option<String>,
}

impl ListGatewayServicesRequest {
    /// The endpoint description this request denotes.
    pub fn to_endpoint(&self) -> (e: Endpoint)
        ensures
            e.path@ == "catalog/gateway-services/"@ + self.gateway@,
            e.method == Method::Get,
            e.body is Empty,
            qview(e.query@) == opt_pair("dc"@, ov(self.dc)) + opt_pair("ns"@, ov(self.ns)),
    {
        let mut query: Vec<QueryPair> = Vec::new();
        push_opt(&mut query, "dc", &self.dc);
        push_opt(&mut query, "ns", &self.ns);
        proof {
            assert(qview(query@) =~= opt_pair("dc"@, ov(self.dc)) + opt_pair("ns"@, ov(self.ns)));
        }
        Endpoint {
            path: String::from_str("catalog/gateway-services/").concat(self.gateway.as_str()),
            method: Method::Get,
            body: RequestBody::Empty,
            query,
        }
    }
}

impl FeaturedEndpoint for ListGatewayServicesRequest {
    open spec fn spec_features(&self) -> Option<FeaturesV> {
        fov(self.features)
    }

    fn features(&self) -> (f: Option<Features>) {
        match &self.features {
            Some(x) => Some(x.clone()),
            None => None,
        }
    }
}

/// Response entry from listing the nodes for a service.
#[derive(Debug)]
pub struct ListNodesForServiceResponse {
    pub address: String,
    pub create_index: u64,
    pub datacenter: String,
    pub id: String,
    pub node_meta: Option<HashMap<String, String>>,
    pub modify_index: u64,
    pub namespace: Option<String>,
    pub node: String,
    pub service_address: String,
    pub service_connect: Option<crate::api::service::AgentServiceConnect>,
    pub service_enable_tag_override: bool,
    pub service_id: String,
    pub service_kind: String,
    pub service_meta: Option<HashMap<String, String>>,
    pub service_name: String,
    pub service_port: u64,
    pub service_proxy: crate::api::service::AgentServiceConnectProxy,
    pub service_socket_path: Option<String>,
    pub service_tags: Vec<String>,
    pub service_weights: crate::api::service::AgentWeights,
    pub tagged_addresses: Option<HashMap<String, String>>,
}

/// Response from listing a node's services.
#[derive(Debug)]
pub struct ListNodeServicesResponse {
    pub node: Node,
    pub services: Vec<crate::api::service::AgentService>,
}

/// A namespaced service name.
#[derive(Debug)]
pub struct CompoundServiceNameResponse {
    pub name: String,
    pub namespace: Option<String>,
}

/// Response entry from listing the services of a gateway.
#[derive(Debug)]
pub struct GatewayServiceResponse {
    pub ca_file: Option<String>,
    pub cert_file: Option<String>,
    pub from_wildcard: Option<bool>,
    pub gateway: CompoundServiceNameResponse,
    pub gateway_kind: String,
    pub hosts: Option<Vec<String>>,
    pub key_file: Option<String>,
    pub port: Option<u64>,
    pub protocol: Option<String>,
    pub service: CompoundServiceNameResponse,
    pub sni: Option<String>,
}

} // verus!
