use vstd::prelude::*;

use crate::data::{spec_can_select_port, AuthorizationBackend, ErrorCode, Protocol, Rights};

verus! {

/// The error code a password authorization is answered with, or `None`
/// when the password is accepted: a wrong universal password is refused,
/// authorization through a database is not supported.
pub open spec fn spec_password_reply(backend: AuthorizationBackend, supplied: Seq<char>) -> Option<ErrorCode> {
    match backend {
        AuthorizationBackend::Password { password } => if password@ == supplied {
            None
        } else {
            Some(ErrorCode::AccessDenied)
        },
        AuthorizationBackend::Database => Some(ErrorCode::Unsupported),
    }
}

/// Computes [`spec_password_reply`].
pub fn password_reply(backend: &AuthorizationBackend, supplied: &String) -> (r: Option<ErrorCode>)
    ensures
        r == spec_password_reply(*backend, supplied@),
{
    match backend {
        AuthorizationBackend::Password { password } => {
            if *password == *supplied {
                None
            } else {
                Some(ErrorCode::AccessDenied)
            }
        },
        AuthorizationBackend::Database => Some(ErrorCode::Unsupported),
    }
}

/// A forwarded payload must be shorter than the read buffer; a longer one is
/// skipped and ends the connection.
pub fn accepts_forward_length(length: usize, max_read: usize) -> (r: bool)
    ensures
        r == (length < max_read),
{
    length < max_read
}

/// The error code a create-server request is answered with before anything
/// is bound, or `None` when a TCP server is to be bound: choosing a TCP port
/// other than 0 needs the right to, and other protocols are not built in.
pub open spec fn spec_create_server_reply(rights: Rights, protocol: Protocol, port: u16) -> Option<ErrorCode> {
    match protocol {
        Protocol::Tcp => if port != 0 && !spec_can_select_port(rights, Protocol::Tcp) {
            Some(ErrorCode::AccessDenied)
        } else {
            None
        },
        _ => Some(ErrorCode::Unimplemented),
    }
}

/// Computes [`spec_create_server_reply`].
pub fn create_server_reply(rights: Rights, protocol: Protocol, port: u16) -> (r: Option<ErrorCode>)
    ensures
        r == spec_create_server_reply(rights, protocol, port),
{
    match protocol {
        Protocol::Tcp => {
            if port != 0 && !rights.can_select_port(Protocol::Tcp) {
                Some(ErrorCode::AccessDenied)
            } else {
                None
            }
        },
        _ => Some(ErrorCode::Unimplemented),
    }
}


/// A request for a TCP server is refused exactly when it names a port and
/// the client lacks the right to choose TCP ports; it goes ahead otherwise.
/// Every other protocol is answered as unimplemented.
pub proof fn lemma_tcp_reply_reads_tcp_port_right(rights: Rights, protocol: Protocol, port: u16)
    ensures
        (spec_create_server_reply(rights, Protocol::Tcp, port) == Some(ErrorCode::AccessDenied))
            <==> (port != 0 && !rights.select_tcp_port),
        (spec_create_server_reply(rights, Protocol::Tcp, port) is None) <==> (port == 0
            || rights.select_tcp_port),
        rights.select_tcp_port ==> spec_create_server_reply(rights, Protocol::Tcp, port) is None,
        protocol != Protocol::Tcp ==> spec_create_server_reply(rights, protocol, port) == Some(
            ErrorCode::Unimplemented,
        ),
{
}

/// The answer to a TCP request depends on no right but the right to choose
/// TCP ports: two clients that agree on it are answered alike.
pub proof fn lemma_tcp_reply_ignores_other_rights(r1: Rights, r2: Rights, port: u16)
    requires
        r1.select_tcp_port == r2.select_tcp_port,
    ensures
        spec_create_server_reply(r1, Protocol::Tcp, port) == spec_create_server_reply(
            r2,
            Protocol::Tcp,
            port,
        ),
{
}

} // verus!
