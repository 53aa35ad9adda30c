use vstd::prelude::*;

use super::channels_map::ChannelsMap;
use crate::data::TcpSlaveCommand;

verus! {

/// The clients of a TCP server a client has created.
pub struct TcpServer {
    pub clients: ChannelsMap<TcpSlaveCommand>,
}

impl Default for TcpServer {
    /// A server without clients.
    fn default() -> (r: Self)
        ensures
            r.clients@.dom().is_empty(),
    {
        TcpServer { clients: ChannelsMap::default() }
    }
}

} // verus!
