//! Endpoint schemas for health queries.

use vstd::prelude::*;

use crate::api::endpoint::{
    obv, opt_pair, ov, push_opt, push_opt_bool, qview, Endpoint, Method, QueryPair, RequestBody,
};
use crate::api::features::{fov, FeaturedEndpoint, Features, FeaturesV};


verus! {

/// One service instance with its node and checks.
#[derive(Debug, Default)]
pub struct HealthServiceChecksInfo {
    pub node: crate::api::catalog::Node,
    pub service: crate::api::service::AgentService,
    pub checks: Vec<crate::api::check::HealthCheck>,
}

/// Lists the service instances providing a service, with health information.
/// 
/// * Path: `health/service/{service}`
/// * Method: GET
#[derive(Debug, Default)]
pub struct ListNodesForServiceRequest {
    pub features: Option<Features>,
    pub service: String,
    pub dc: Option<String>,
    pub near: Option<String>,
    pub passing: Option<bool>,
    pub filter: Option<String>,
    pub peer: Option<String>,
    pub ns: Option<String>,
}

impl ListNodesForServiceRequest {
    /// The endpoint description this request denotes.
    pub fn to_endpoint(&self) -> (e: Endpoint)
        ensures
            e.path@ == "health/service/"@ + self.service@,
            e.method == Method::Get,
            e.body is Empty,
            qview(e.query@) == opt_pair("dc"@, ov(self.dc)) + opt_pair("near"@, ov(self.near)) + opt_pair("passing"@, obv(self.passing)) + opt_pair("filter"@, ov(self.filter)) + opt_pair("peer"@, ov(self.peer)) + opt_pair("ns"@, ov(self.ns)),
    {
        let mut query: Vec<QueryPair> = Vec::new();
        push_opt(&mut query, "dc", &self.dc);
        push_opt(&mut query, "near", &self.near);
        push_opt_bool(&mut query, "passing", &self.passing);
        push_opt(&mut query, "filter", &self.filter);
        push_opt(&mut query, "peer", &self.peer);
        push_opt(&mut query, "ns", &self.ns);
        proof {
            assert(qview(query@) =~= opt_pair("dc"@, ov(self.dc)) + opt_pair("near"@, ov(self.near)) + opt_pair("passing"@, obv(self.passing)) + opt_pair("filter"@, ov(self.filter)) + opt_pair("peer"@, ov(self.peer)) + opt_pair("ns"@, ov(self.ns)));
        }
        Endpoint {
            path: String::from_str("health/service/").concat(self.service.as_str()),
            method: Method::Get,
            body: RequestBody::Empty,
            query,
        }
    }
}

impl FeaturedEndpoint for ListNodesForServiceRequest {
    open spec fn spec_features(&self) -> Option<FeaturesV> {
        fov(self.features)
    }

    fn features(&self) -> (f: Option<Features>) {
        match &self.features {
            Some(x) => Some(x.clone()),
            None => None,
        }
    }
}

} // verus!
