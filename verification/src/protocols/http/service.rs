use vstd::prelude::*;

verus! {

/// How the HTTP server finds the client a request is meant for.
#[derive(Debug, Clone, Copy, PartialEq, Eq, Structural)]
pub enum HttpDiscoveryMethod {
    /// By the first segment of the request path.
    Path,
}

/// The answers the HTTP proxy service gives by itself.
#[derive(Debug, Clone, Copy, PartialEq, Eq, Structural)]
pub enum RouteReply {
    /// The path does not start with a slash.
    InvalidPath,
    /// No endpoint is bound to the first segment of the path.
    EndpointNotFound,
    /// An endpoint was found; forwarding is not implemented yet.
    Found,
}

impl RouteReply {
    /// The status code of the answer.
    pub fn status(&self) -> (r: u16)
        ensures
            r == match *self {
                RouteReply::InvalidPath => 400u16,
                RouteReply::EndpointNotFound => 404u16,
                RouteReply::Found => 200u16,
            },
    {
        match self {
            RouteReply::InvalidPath => 400,
            RouteReply::EndpointNotFound => 404,
            RouteReply::Found => 200,
        }
    }

    /// The plain-text body of the answer.
    pub fn body(&self) -> (r: &'static str)
        ensures
            r == match *self {
                RouteReply::InvalidPath => "Invalid path",
                RouteReply::EndpointNotFound => "Endpoint not found",
                RouteReply::Found => "TODO",
            },
    {
        match self {
            RouteReply::InvalidPath => "Invalid path",
            RouteReply::EndpointNotFound => "Endpoint not found",
            RouteReply::Found => "TODO",
        }
    }

    /// Whether the answer makes the service forget the endpoint it was
    /// connected to before its next request.
    pub fn resets(&self) -> (r: bool)
        ensures
            r == (*self == RouteReply::EndpointNotFound),
    {
        match self {
            RouteReply::EndpointNotFound => true,
            _ => false,
        }
    }
}

/// The answer after looking up the endpoint named by a valid path.
pub fn reply_for_lookup(found: bool) -> (r: RouteReply)
    ensures
        r == (if found {
            RouteReply::Found
        } else {
            RouteReply::EndpointNotFound
        }),
{
    if found {
        RouteReply::Found
    } else {
        RouteReply::EndpointNotFound
    }
}

/// Splits a request path `/fragment/tail` into the endpoint name and the
/// rest: the text after the leading slash is cut at its first slash (which
/// belongs to neither part); without another slash the rest is empty.
/// `None` when the path does not start with a slash.
pub fn split_path(path: &[u8]) -> (r: Option<(&[u8], &[u8])>)
    ensures
        (path@.len() == 0 || path@[0] != 0x2fu8) ==> r is None,
        (path@.len() > 0 && path@[0] == 0x2fu8) ==> (r matches Some((fragment, tail)) && {
            let rest = path@.skip(1);
            &&& fragment@ == rest.take(fragment@.len() as int)
            &&& !fragment@.contains(0x2fu8)
            &&& if fragment@.len() < rest.len() {
                rest[fragment@.len() as int] == 0x2fu8 && tail@ == rest.skip(
                    fragment@.len() as int + 1,
                )
            } else {
                fragment@ == rest && tail@.len() == 0
            }
        }),
{
    let len = path.len();
    if len == 0 || path[0] != 0x2f {
        return None;
    }
    let rest = &path[1..len];
    let n = rest.len();
    let mut i: usize = 0;
    while i < n && rest[i] != 0x2f
        invariant
            n == rest@.len(),
            i <= n,
            forall|k: int| 0 <= k < i ==> #[trigger] rest@[k] != 0x2fu8,
        decreases n - i,
    {
        i += 1;
    }
    let fragment = &rest[0..i];
    assert forall|k: int| 0 <= k < fragment@.len() implies #[trigger] fragment@[k] != 0x2fu8 by {
        assert(fragment@[k] == rest@[k]);
    }
    if i < n {
        Some((fragment, &rest[i + 1..n]))
    } else {
        Some((fragment, &rest[n..n]))
    }
}

/// The per-connection state of the HTTP proxy service.
pub struct HttpProxyService {
    pub discovery_method: HttpDiscoveryMethod,
    /// The client the connection was routed to, if any.
    pub id: Option<u16>,
}

impl HttpProxyService {
    pub fn new(discovery_method: HttpDiscoveryMethod) -> (r: Self)
        ensures
            r.discovery_method == discovery_method,
            r.id is None,
    {
        HttpProxyService { discovery_method, id: None }
    }

    /// Starts a request: when a reset was requested since the last one, the
    /// client the connection was routed to is forgotten.
    pub fn begin_request(&mut self, reset_requested: bool)
        ensures
            final(self).discovery_method == old(self).discovery_method,
            reset_requested ==> final(self).id is None,
            !reset_requested ==> final(self).id == old(self).id,
    {
        if reset_requested {
            self.id = None;
        }
    }
}

} // verus!
