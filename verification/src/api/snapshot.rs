//! Endpoint schemas for snapshots.

use vstd::prelude::*;

use crate::api::endpoint::{
    obv, opt_pair, ov, push_opt, push_opt_bool, qview, Endpoint, Method, QueryPair, RequestBody,
};
use crate::api::features::{fov, FeaturedEndpoint, Features, FeaturesV};


verus! {

/// Generates and returns a point-in-time snapshot of the server state.
/// 
/// * Path: `snapshot`
/// * Method: GET
#[derive(Debug, Default)]
pub struct GenerateSnapshotRequest {
    pub features: Option<Features>,
    pub dc: Option<String>,
    pub stale: Option<bool>,
}

impl GenerateSnapshotRequest {
    /// The endpoint description this request denotes.
    pub fn to_endpoint(&self) -> (e: Endpoint)
        ensures
            e.path@ == "snapshot"@,
            e.method == Method::Get,
            e.body is Empty,
            qview(e.query@) == opt_pair("dc"@, ov(self.dc)) + opt_pair("stale"@, obv(self.stale)),
    {
        let mut query: Vec<QueryPair> = Vec::new();
        push_opt(&mut query, "dc", &self.dc);
        push_opt_bool(&mut query, "stale", &self.stale);
        proof {
            assert(qview(query@) =~= opt_pair("dc"@, ov(self.dc)) + opt_pair("stale"@, obv(self.stale)));
        }
        Endpoint {
            path: String::from_str("snapshot"),
            method: Method::Get,
            body: RequestBody::Empty,
            query,
        }
    }
}

impl FeaturedEndpoint for GenerateSnapshotRequest {
    open spec fn spec_features(&self) -> Option<FeaturesV> {
        fov(self.features)
    }

    fn features(&self) -> (f: Option<Features>) {
        match &self.features {
            Some(x) => Some(x.clone()),
            None => None,
        }
    }
}

/// Restores a point-in-time snapshot of the server state.
/// 
/// * Path: `snapshot`
/// * Method: PUT
#[derive(Debug, Default)]
pub struct RestoreSnapshotRequest {
    pub features: Option<Features>,
    pub data: Vec<u8>,
    pub dc: Option<String>,
}

impl RestoreSnapshotRequest {
    /// The endpoint description this request denotes. The body holds exactly
    /// the caller's bytes, with no envelope added.
    pub fn to_endpoint(self) -> (e: Endpoint)
        ensures
            e.path@ == "snapshot"@,
            e.method == Method::Put,
            e.body matches RequestBody::Raw(b) && b@ == self.data@,
            qview(e.query@) == opt_pair("dc"@, ov(self.dc)),
    {
        let mut query: Vec<QueryPair> = Vec::new();
        push_opt(&mut query, "dc", &self.dc);
        proof {
            assert(qview(query@) =~= opt_pair("dc"@, ov(self.dc)));
        }
        Endpoint {
            path: String::from_str("snapshot"),
            method: Method::Put,
            body: RequestBody::Raw(self.data),
            query,
        }
    }
}

impl FeaturedEndpoint for RestoreSnapshotRequest {
    open spec fn spec_features(&self) -> Option<FeaturesV> {
        fov(self.features)
    }

    fn features(&self) -> (f: Option<Features>) {
        match &self.features {
            Some(x) => Some(x.clone()),
            None => None,
        }
    }
}

} // verus!
