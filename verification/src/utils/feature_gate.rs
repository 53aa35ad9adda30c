use vstd::prelude::*;

use std::sync::Arc;

use super::features::http::HttpChannel;
use crate::error::NonCriticalResult;

verus! {

/// The optional features the server was started with.
pub struct FeatureGateRef {
    http: HttpChannel,
}

/// A shared handle to the features of the server.
#[derive(Clone)]
pub struct FeatureGate {
    ref_: Arc<FeatureGateRef>,
}

impl std::ops::Deref for FeatureGate {
    type Target = FeatureGateRef;

    fn deref(&self) -> (r: &FeatureGateRef)
        ensures
            *r == self.features(),
    {
        &self.ref_
    }
}

impl FeatureGate {
    pub closed spec fn features(&self) -> FeatureGateRef {
        *self.ref_
    }

    pub fn new(http: HttpChannel) -> (r: Self)
        ensures
            r.features().http_channel() == http,
    {
        Self { ref_: Arc::new(FeatureGateRef { http }) }
    }
}

impl FeatureGateRef {
    pub closed spec fn http_channel(&self) -> HttpChannel {
        self.http
    }

    /// The channel to the HTTP server.
    pub fn http(&self) -> (r: NonCriticalResult<&HttpChannel>)
        ensures
            r matches Ok(c) && *c == self.http_channel(),
    {
        Ok(&self.http)
    }
}

} // verus!
