//! Endpoint schemas for Connect proxies.

use vstd::prelude::*;

use std::collections::HashMap;


verus! {

/// One path exposed through a proxy.
#[derive(Debug, Default)]
pub struct ExposePath {
    pub listener_port: Option<u64>,
    pub local_path_port: Option<u64>,
    pub path: Option<String>,
    pub parsed_from_check: Option<bool>,
    pub protocol: Option<String>,
}

/// Exposure configuration of a proxy.
#[derive(Debug, Default)]
pub struct ExposeConfig {
    pub checks: Option<bool>,
    pub paths: Option<Vec<ExposePath>>,
}

/// Mesh-gateway configuration of a proxy.
#[derive(Debug, Default)]
pub struct MeshGatewayConfig {
    pub mode: Option<String>,
}

/// Transparent-proxy configuration.
#[derive(Debug, Default)]
pub struct TransparentProxyConfig {
    pub dialed_directly: Option<bool>,
    pub outbound_listener_port: Option<u64>,
}

/// One upstream of a proxy.
#[derive(Debug, Default)]
pub struct Upstream {
    pub centrally_configured: Option<bool>,
    pub config: Option<HashMap<String, String>>,
    pub datacenter: Option<String>,
    pub destination_name: Option<String>,
    pub destination_namespace: Option<String>,
    pub destination_type: Option<String>,
    pub local_bind_address: Option<String>,
    pub local_bind_port: Option<u64>,
    pub local_bind_socket_mode: Option<String>,
    pub local_bind_socket_path: Option<String>,
    pub mesh_gateway: Option<MeshGatewayConfig>,
}

/// Mesh-gateway configuration as returned.
#[derive(Debug)]
pub struct MeshGatewayResponse {
    pub mode: Option<String>,
}

/// Transparent-proxy configuration as returned.
#[derive(Debug)]
pub struct TransparentProxyResponse {
    pub outbound_listener_port: Option<u64>,
    pub dialed_directly: Option<bool>,
}

/// One exposed path as returned.
#[derive(Debug)]
pub struct ExposePathResponse {
    pub listener_port: Option<u64>,
    pub local_path_port: Option<u64>,
    pub path: Option<String>,
    pub parsed_from_check: bool,
    pub protocol: Option<String>,
}

/// Exposure configuration as returned.
#[derive(Debug)]
pub struct ExposeResponse {
    pub checks: Option<bool>,
    pub paths: Option<Vec<ExposePathResponse>>,
}

/// One upstream as returned.
#[derive(Debug)]
pub struct UpstreamResponse {
    pub centrally_configured: Option<bool>,
    pub config: Option<HashMap<String, String>>,
    pub datacenter: Option<String>,
    pub destination_type: Option<String>,
    pub destination_namespace: Option<String>,
    pub destination_name: String,
    pub local_bind_address: Option<String>,
    pub local_bind_port: Option<u64>,
    pub local_bind_socket_path: Option<String>,
    pub local_bind_socket_mode: Option<String>,
    pub mesh_gateway: Option<MeshGatewayResponse>,
}

/// Proxy configuration as returned.
#[derive(Debug)]
pub struct ProxyResponse {
    pub config: Option<HashMap<String, String>>,
    pub destination_service_name: Option<String>,
    pub destination_service_id: Option<String>,
    pub expose: Option<ExposeResponse>,
    pub local_service_address: Option<String>,
    pub local_service_port: Option<u64>,
    pub mesh_gateway: Option<MeshGatewayResponse>,
    pub mode: Option<String>,
    pub transparent_proxy: Option<TransparentProxyResponse>,
    pub upstreams: Option<Vec<UpstreamResponse>>,
}

} // verus!
