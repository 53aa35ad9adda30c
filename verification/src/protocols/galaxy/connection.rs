use vstd::prelude::*;

use crate::data::{spec_can_create_server, AuthorizationBackend, Protocol, Rights};
use crate::error::{NonCriticalError, NonCriticalResult};

verus! {

/// The answer to a request to create a server of `protocol`: it needs the
/// right to create such servers, and of the protocols only TCP is served.
pub open spec fn spec_check_create_server(rights: Rights, protocol: Protocol) -> NonCriticalResult<()> {
    if !spec_can_create_server(rights, protocol) {
        Err(NonCriticalError::NotEnoughRightsForProtocol(protocol))
    } else if protocol != Protocol::Tcp {
        Err(NonCriticalError::ProtocolIsUnavailable(protocol))
    } else {
        Ok(())
    }
}

/// Checks a request to create a server of `protocol`.
pub fn check_create_server(rights: Rights, protocol: Protocol) -> (r: NonCriticalResult<()>)
    ensures
        r == spec_check_create_server(rights, protocol),
{
    if !rights.can_create_server(protocol) {
        return Err(NonCriticalError::NotEnoughRightsForProtocol(protocol));
    }
    match protocol {
        Protocol::Tcp => Ok(()),
        proto => Err(NonCriticalError::ProtocolIsUnavailable(proto)),
    }
}

/// How many bytes of a refused create-server request are left unread and
/// must be skipped: the port, for TCP and UDP. The layout of an HTTP request
/// is not defined, so it has no answer.
pub fn denied_skip_len(protocol: Protocol) -> (r: usize)
    requires
        protocol != Protocol::Http,
    ensures
        r == 2,
{
    2
}

/// The answer to a password authorization: with the universal password the
/// supplied text must equal it; authorization through a database is not
/// implemented.
pub open spec fn spec_check_password(backend: AuthorizationBackend, supplied: Seq<char>) -> NonCriticalResult<()> {
    match backend {
        AuthorizationBackend::Password { password } => if supplied == password@ {
            Ok(())
        } else {
            Err(NonCriticalError::IncorrectUniversalPassword)
        },
        AuthorizationBackend::Database => Err(
            NonCriticalError::Unimplemented("authorize through database"),
        ),
    }
}

/// Checks a supplied password against the configured backend.
pub fn check_password(backend: &AuthorizationBackend, supplied: &String) -> (r: NonCriticalResult<()>)
    ensures
        r == spec_check_password(*backend, supplied@),
{
    match backend {
        AuthorizationBackend::Password { password } => {
            if *supplied == *password {
                Ok(())
            } else {
                Err(NonCriticalError::IncorrectUniversalPassword)
            }
        },
        AuthorizationBackend::Database => Err(
            NonCriticalError::Unimplemented("authorize through database"),
        ),
    }
}

/// A forwarded payload is read only when it fits the read buffer.
pub fn accepts_forward_size(size: usize, max_read: usize) -> (r: bool)
    ensures
        r == (size <= max_read),
{
    size <= max_read
}

} // verus!
