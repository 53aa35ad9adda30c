use vstd::prelude::*;

verus! {

/// The kinds of server a client may ask to be created for it.
#[derive(Debug, Clone, Copy, PartialEq, Eq, Structural)]
pub enum Protocol {
    Tcp,
    Udp,
    Http,
}

/// The error codes a client is answered with.
#[derive(Debug, Clone, Copy, PartialEq, Eq, Structural)]
pub enum ErrorCode {
    AccessDenied,
    Unsupported,
    Unimplemented,
    TooLongBuffer,
    FailedToDecompress,
    ClientDoesNotExists,
    ServerWasNotCreated,
    FailedToBindAddress,
    UnknownCommand,
    ServerStopped,
}

/// Commands for the task serving one client of a TCP server.
pub enum TcpSlaveCommand {
    /// Write these bytes to the client.
    Forward { buffer: Vec<u8> },
    /// Disconnect the client.
    Disconnect,
}

/// Requests to the HTTP server.
pub enum HttpServerRequest {
    /// Stop routing the endpoint to its client.
    Unbind { endpoint: Vec<u8> },
}

/// How clients prove who they are.
pub enum AuthorizationBackend {
    /// One password shared by every client.
    Password { password: String },
    /// Per-user credentials kept in a database.
    Database,
}

/// What a client is allowed to do: for each kind of server, whether it may
/// create one and whether it may choose the port of one.
#[derive(Debug, Clone, Copy, PartialEq, Eq, Structural)]
pub struct Rights {
    pub create_tcp: bool,
    pub select_tcp_port: bool,
    pub create_udp: bool,
    pub select_udp_port: bool,
    pub create_http: bool,
    pub select_http_port: bool,
}

pub open spec fn spec_can_create_server(rights: Rights, protocol: Protocol) -> bool {
    match protocol {
        Protocol::Tcp => rights.create_tcp,
        Protocol::Udp => rights.create_udp,
        Protocol::Http => rights.create_http,
    }
}

pub open spec fn spec_can_select_port(rights: Rights, protocol: Protocol) -> bool {
    match protocol {
        Protocol::Tcp => rights.select_tcp_port,
        Protocol::Udp => rights.select_udp_port,
        Protocol::Http => rights.select_http_port,
    }
}

impl Rights {
    /// Whether a server of `protocol` may be created.
    pub fn can_create_server(&self, protocol: Protocol) -> (r: bool)
        ensures
            r == spec_can_create_server(*self, protocol),
    {
        match protocol {
            Protocol::Tcp => self.create_tcp,
            Protocol::Udp => self.create_udp,
            Protocol::Http => self.create_http,
        }
    }

    /// Whether the port of a server of `protocol` may be chosen.
    pub fn can_select_port(&self, protocol: Protocol) -> (r: bool)
        ensures
            r == spec_can_select_port(*self, protocol),
    {
        match protocol {
            Protocol::Tcp => self.select_tcp_port,
            Protocol::Udp => self.select_udp_port,
            Protocol::Http => self.select_http_port,
        }
    }
}

/// The port to report back for a created server: when the client let the
/// system choose (`requested` is 0), the port it got, unless that is 0;
/// otherwise nothing, since the client knows its port.
pub open spec fn spec_reported_port(requested: u16, bound: u16) -> Option<u16> {
    if requested == 0 && bound != 0 {
        Some(bound)
    } else {
        None
    }
}

/// Computes [`spec_reported_port`].
pub fn reported_port(requested: u16, bound: u16) -> (r: Option<u16>)
    ensures
        r == spec_reported_port(requested, bound),
{
    if requested == 0 {
        if bound != 0 {
            Some(bound)
        } else {
            None
        }
    } else {
        None
    }
}

} // verus!
