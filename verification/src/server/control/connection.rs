use vstd::prelude::*;

use crate::data::Rights;
use crate::error::{NonCriticalError, NonCriticalResult};

verus! {

/// The text that `String::from_utf8_lossy` makes of `bytes`.
pub uninterp spec fn utf8_lossy(bytes: Seq<u8>) -> Seq<char>;

/// Calls `String::from_utf8_lossy`: valid UTF-8 is decoded as it is;
/// invalid sequences become U+FFFD (that case is only named, not stated).
#[verifier::external_body]
fn string_from_utf8_lossy(bytes: &[u8]) -> (r: String)
    ensures
        r@ == utf8_lossy(bytes@),
        vstd::utf8::valid_utf8(bytes@) ==> r@ == vstd::utf8::decode_utf8(bytes@),
{
    String::from_utf8_lossy(bytes).into_owned()
}

/// Commands the listener of a client's TCP server sends to the control
/// connection of that client.
#[derive(Debug, Clone, Copy, PartialEq, Eq, Structural)]
pub enum ControlCommand {
    /// Someone connected to the server.
    Connected,
    /// The server stopped.
    Shutdown,
}

/// Whether handling `command` ends the client's server: true for a shutdown.
pub fn handle_command(command: ControlCommand) -> (reset_server: bool)
    ensures
        reset_server == (command == ControlCommand::Shutdown),
{
    match command {
        ControlCommand::Connected => false,
        ControlCommand::Shutdown => true,
    }
}

/// The answer to a request to create a TCP server on `port` (0 lets the
/// system choose): creating needs the right to create TCP servers, and a
/// port other than 0 needs the right to choose it.
pub open spec fn spec_check_create_tcp_server(rights: Rights, port: u16) -> NonCriticalResult<()> {
    if !rights.create_tcp {
        Err(NonCriticalError::AccessDenied("create tcp server"))
    } else if port != 0 && !rights.select_tcp_port {
        Err(NonCriticalError::AccessDenied("select tcp port"))
    } else {
        Ok(())
    }
}

/// Checks the rights for creating a TCP server on `port`.
pub fn check_create_tcp_server(rights: Rights, port: u16) -> (r: NonCriticalResult<()>)
    ensures
        r == spec_check_create_tcp_server(rights, port),
{
    if !rights.create_tcp {
        return Err(NonCriticalError::AccessDenied("create tcp server"));
    }
    if port != 0 && !rights.select_tcp_port {
        return Err(NonCriticalError::AccessDenied("select tcp port"));
    }
    Ok(())
}

/// The answer to a password authorization: without a configured universal
/// password it is disabled; otherwise the supplied text must equal it.
pub open spec fn spec_check_password(configured: Option<Seq<char>>, supplied: Seq<char>) -> NonCriticalResult<()> {
    match configured {
        Some(password) => if supplied == password {
            Ok(())
        } else {
            Err(NonCriticalError::WrongPassword)
        },
        None => Err(NonCriticalError::Disabled("password authorization")),
    }
}

pub open spec fn option_string_view(o: Option<String>) -> Option<Seq<char>> {
    match o {
        Some(s) => Some(s@),
        None => None,
    }
}

/// Compares the supplied text with the configured universal password.
pub fn check_password(configured: &Option<String>, supplied: &String) -> (r: NonCriticalResult<()>)
    ensures
        r == spec_check_password(option_string_view(*configured), supplied@),
{
    match configured {
        Some(password) => {
            if *supplied == *password {
                Ok(())
            } else {
                Err(NonCriticalError::WrongPassword)
            }
        },
        None => Err(NonCriticalError::Disabled("password authorization")),
    }
}

/// Authorizes with the universal password: the supplied bytes are read as
/// UTF-8 (invalid sequences replaced) and compared with the configured
/// password.
pub fn authorize_password(configured: &Option<String>, supplied: &[u8]) -> (r: NonCriticalResult<()>)
    ensures
        r == spec_check_password(option_string_view(*configured), utf8_lossy(supplied@)),
{
    let text = string_from_utf8_lossy(supplied);
    check_password(configured, &text)
}

/// The size of the flow read buffer announced to a client, which the
/// protocol carries in 16 bits: larger sizes are announced as `u16::MAX`.
pub fn announced_flow_buffer(size: usize) -> (r: u16)
    ensures
        r == (if size <= u16::MAX {
            size
        } else {
            u16::MAX as usize
        }),
{
    if size <= 0xffff {
        size as u16
    } else {
        0xffff
    }
}

} // verus!
