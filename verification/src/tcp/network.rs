use vstd::prelude::*;

use crate::data::{spec_can_create_server, spec_can_select_port, ErrorCode, Protocol, Rights};
use crate::error::ChanSendError;

verus! {

/// A forwarded payload may be at most as long as the read buffer; a longer
/// one stops the serving of the client.
pub fn accepts_forward_length(length: usize, max_length: usize) -> (r: bool)
    ensures
        r == (length <= max_length),
{
    length <= max_length
}

/// How a request to create a server is handled.
#[derive(Debug, Clone, Copy, PartialEq, Eq, Structural)]
pub enum ServerRequest {
    /// The client may not create a server of that protocol.
    DenyCreate,
    /// The client may not choose the port.
    DenySelectPort,
    /// Bind a TCP listener on the requested port.
    BindTcp,
    /// The protocol is not implemented.
    Unimplemented,
}

pub open spec fn spec_decide_server_request(rights: Rights, protocol: Protocol, port: u16) -> ServerRequest {
    if !spec_can_create_server(rights, protocol) {
        ServerRequest::DenyCreate
    } else if port != 0 && !spec_can_select_port(rights, protocol) {
        ServerRequest::DenySelectPort
    } else if protocol == Protocol::Tcp {
        ServerRequest::BindTcp
    } else {
        ServerRequest::Unimplemented
    }
}

/// Decides how to handle a request to create a server of `protocol` on
/// `port` (0 lets the system choose).
pub fn decide_server_request(rights: Rights, protocol: Protocol, port: u16) -> (r: ServerRequest)
    ensures
        r == spec_decide_server_request(rights, protocol, port),
{
    if !rights.can_create_server(protocol) {
        ServerRequest::DenyCreate
    } else if port != 0 && !rights.can_select_port(protocol) {
        ServerRequest::DenySelectPort
    } else {
        match protocol {
            Protocol::Tcp => ServerRequest::BindTcp,
            _ => ServerRequest::Unimplemented,
        }
    }
}

/// The result of handing a command to a client: `None` when the client has
/// no server; otherwise what handing it over gave.
pub open spec fn spec_delivery(outcome: Option<Result<(), ChanSendError>>) -> (bool, Option<ErrorCode>) {
    match outcome {
        None => (false, Some(ErrorCode::ServerWasNotCreated)),
        Some(Ok(())) => (true, None),
        Some(Err(ChanSendError::ChannelIsClosed)) => (false, None),
        Some(Err(ChanSendError::IdDoesNotExists)) => (false, Some(ErrorCode::ClientDoesNotExists)),
    }
}

/// Whether the command reached the client, and the error code the owner of
/// the server is told, if any. A closed channel is not reported: the client
/// is leaving anyway.
pub fn delivery(outcome: Option<Result<(), ChanSendError>>) -> (r: (bool, Option<ErrorCode>))
    ensures
        r == spec_delivery(outcome),
{
    match outcome {
        None => (false, Some(ErrorCode::ServerWasNotCreated)),
        Some(Ok(())) => (true, None),
        Some(Err(ChanSendError::ChannelIsClosed)) => (false, None),
        Some(Err(ChanSendError::IdDoesNotExists)) => (false, Some(ErrorCode::ClientDoesNotExists)),
    }
}

/// Asserts that an operation that cannot fail did not fail. A failure would
/// be a bug and is left out by the precondition.
pub fn expect<E>(fn_name: &str, r: Result<(), E>) -> (res: std::io::Result<()>)
    requires
        r is Ok,
    ensures
        res is Ok,
{
    Ok(())
}


/// The right to choose a port that is checked is the one for the requested
/// protocol: a request is refused for its port exactly when the client may
/// create such a server, names a port, and may not choose ports of that
/// protocol. A client with both TCP rights always gets its TCP server bound.
pub proof fn lemma_port_right_of_requested_protocol(rights: Rights, protocol: Protocol, port: u16)
    ensures
        (spec_decide_server_request(rights, protocol, port) == ServerRequest::DenySelectPort) <==> (
        spec_can_create_server(rights, protocol) && port != 0 && !spec_can_select_port(
            rights,
            protocol,
        )),
        (spec_decide_server_request(rights, protocol, port) == ServerRequest::DenyCreate) <==> !spec_can_create_server(
            rights,
            protocol,
        ),
        rights.create_tcp && rights.select_tcp_port ==> spec_decide_server_request(
            rights,
            Protocol::Tcp,
            port,
        ) == ServerRequest::BindTcp,
        rights.create_tcp && port == 0 ==> spec_decide_server_request(rights, Protocol::Tcp, port)
            == ServerRequest::BindTcp,
{
}

/// A TCP request is decided by the two TCP rights alone: clients that agree
/// on them are answered alike, whatever their rights for other protocols.
pub proof fn lemma_tcp_request_ignores_other_rights(r1: Rights, r2: Rights, port: u16)
    requires
        r1.create_tcp == r2.create_tcp,
        r1.select_tcp_port == r2.select_tcp_port,
    ensures
        spec_decide_server_request(r1, Protocol::Tcp, port) == spec_decide_server_request(
            r2,
            Protocol::Tcp,
            port,
        ),
{
}

} // verus!
