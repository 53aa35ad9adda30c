use vstd::prelude::*;

use crate::data::Protocol;

verus! {

/// Makes `std::io::Error` known to the verifier as an opaque type.
#[verifier::external_type_specification]
#[verifier::external_body]
pub struct ExIoError(std::io::Error);

/// An error that ends the current request of a client but not its
/// connection: it is reported back to the client and serving goes on.
#[derive(Debug)]
pub enum NonCriticalError {
    FeatureIsUnavailable(&'static str),
    NoServerWasCreated,
    NoServer,
    ClientDoesNotExists,
    ClientIsNotFound { id: u16, chan_closed: bool },
    FailedToBindAddress { error: std::io::Error, port: u16, protocol: Protocol },
    NotEnoughRightsForProtocol(Protocol),
    ProtocolIsUnavailable(Protocol),
    IncorrectUniversalPassword,
    Unimplemented(&'static str),
    AccessDenied(&'static str),
    WrongPassword,
    Disabled(&'static str),
}

pub type NonCriticalResult<T> = Result<T, NonCriticalError>;

/// Why handing a command to a client of a TCP server failed.
#[derive(Debug, Clone, Copy, PartialEq, Eq, Structural)]
pub enum ChanSendError {
    /// The client's channel is closed: it is disconnecting already.
    ChannelIsClosed,
    /// No client has that identifier.
    IdDoesNotExists,
}

/// Errors that end the serving of a flow connection.
#[derive(Debug, Clone, Copy, PartialEq, Eq, Structural)]
pub enum FlowProcessError {
    /// The peer went away in the middle of a forwarded payload.
    DisconnectedDuringForward,
    /// A compressed payload could not be decompressed within the limits.
    FailedToDecompress,
}

} // verus!
