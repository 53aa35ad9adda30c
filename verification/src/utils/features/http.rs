use vstd::prelude::*;

use tokio::sync::mpsc::UnboundedSender;

use crate::data::HttpServerRequest;
use crate::error::{NonCriticalError, NonCriticalResult};
use crate::servers::channels_map::channel_send;

verus! {

/// What handing a request over reports, given whether the HTTP server took
/// it.
pub open spec fn send_outcome_spec(sent: bool) -> NonCriticalResult<()> {
    if sent {
        Ok(())
    } else {
        Err(NonCriticalError::FeatureIsUnavailable("http"))
    }
}

/// The result of handing a request to the HTTP server: when it did not
/// take it, the server is gone and the HTTP feature is unavailable.
pub fn send_outcome(sent: bool) -> (r: NonCriticalResult<()>)
    ensures
        r == send_outcome_spec(sent),
        sent ==> r is Ok,
        !sent ==> r == Err::<(), NonCriticalError>(NonCriticalError::FeatureIsUnavailable("http")),
{
    if sent {
        Ok(())
    } else {
        Err(NonCriticalError::FeatureIsUnavailable("http"))
    }
}

/// The channel to the HTTP server.
#[derive(Clone)]
pub struct HttpChannel {
    tx: UnboundedSender<HttpServerRequest>,
}

impl HttpChannel {
    pub fn new(tx: UnboundedSender<HttpServerRequest>) -> (r: Self)
        ensures
            r.sender() == tx,
    {
        Self { tx }
    }

    pub closed spec fn sender(&self) -> UnboundedSender<HttpServerRequest> {
        self.tx
    }

    /// Hands `request` to the HTTP server; when that server is gone, the
    /// HTTP feature is unavailable.
    pub fn send(&self, request: HttpServerRequest) -> (r: NonCriticalResult<()>)
        ensures
            r is Ok || r == Err::<(), NonCriticalError>(NonCriticalError::FeatureIsUnavailable("http")),
    {
        let sent = channel_send(&self.tx, request);
        send_outcome(sent)
    }
}


/// A request the HTTP server took is answered with success, and only a
/// request it refused makes the feature unavailable: the two outcomes of
/// handing over are told apart, never swapped.
pub proof fn lemma_send_outcome_follows_hand_over(sent: bool)
    ensures
        (send_outcome_spec(sent) is Ok) <==> sent,
        (send_outcome_spec(sent) == Err::<(), NonCriticalError>(
            NonCriticalError::FeatureIsUnavailable("http"),
        )) <==> !sent,
{
}

} // verus!
