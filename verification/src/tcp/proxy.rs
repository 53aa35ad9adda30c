use vstd::prelude::*;

verus! {

/// Why the loop serving one client of a TCP server ended.
#[derive(Debug, Clone, Copy, PartialEq, Eq, Structural)]
pub enum ClientExit {
    /// Reading from the client failed or reached the end.
    ReadEnded,
    /// The owner of the server can no longer be told anything.
    MasterGone,
    /// The command channel of the client was closed.
    ChannelClosed,
    /// The owner of the server asked to disconnect the client.
    DisconnectRequested,
    /// Writing to the client failed.
    WriteFailed,
}

/// Whether the owner of the server is told that the client disconnected
/// after the loop ended for `exit`: this is done exactly when the owner
/// asked for the disconnection.
pub fn notifies_disconnected(exit: ClientExit) -> (r: bool)
    ensures
        r == (exit == ClientExit::DisconnectRequested),
{
    match exit {
        ClientExit::DisconnectRequested => true,
        _ => false,
    }
}

} // verus!
