use vstd::prelude::*;

use rustc_hash::{FxBuildHasher, FxHashMap};
use tokio::sync::mpsc::UnboundedSender;

use crate::error::{NonCriticalError, NonCriticalResult};
use crate::utils::return_id::ReturnId;

verus! {

/// The table from client identifiers to their channels.
pub type ChannelTable<T> = FxHashMap<u16, UnboundedSender<T>>;

/// Makes `rustc_hash::FxBuildHasher`, the deterministic hash builder of
/// `FxHashMap`, known to the verifier as an opaque type.
#[verifier::external_type_specification]
#[verifier::external_body]
pub struct ExFxBuildHasher(FxBuildHasher);

/// Makes `tokio::sync::mpsc::UnboundedSender` known to the verifier as an
/// opaque type.
#[verifier::external_type_specification]
#[verifier::external_body]
#[verifier::reject_recursive_types(T)]
pub struct ExUnboundedSender<T>(UnboundedSender<T>);

/// `UnboundedSender::clone` makes another handle to the same channel;
/// nothing about the handle is stated.
pub assume_specification<T>[ <UnboundedSender<T> as Clone>::clone ](s: &UnboundedSender<T>) -> UnboundedSender<T>;

/// Calls `FxHashMap::default`, which makes an empty map.
#[verifier::external_body]
fn fx_map_new<T>() -> (r: ChannelTable<T>)
    ensures
        r@.dom() == Set::<u16>::empty(),
{
    FxHashMap::default()
}

/// Calls `HashMap::insert` on an `FxHashMap`: afterwards `id` maps to `chan`
/// and every other key is unchanged (the hasher is deterministic and `u16`
/// keys compare by value).
#[verifier::external_body]
fn fx_map_insert<T>(
    map: &mut ChannelTable<T>,
    id: u16,
    chan: UnboundedSender<T>,
)
    ensures
        final(map)@ == old(map)@.insert(id, chan),
{
    map.insert(id, chan);
}

/// Calls `HashMap::get` on an `FxHashMap`: the value of `id`, if it has one.
#[verifier::external_body]
fn fx_map_get<T>(m: &ChannelTable<T>, id: u16) -> (r: Option<&UnboundedSender<T>>)
    ensures
        r is Some <==> m@.contains_key(id),
        r is Some ==> *r->Some_0 == m@[id],
{
    m.get(&id)
}

/// Calls `HashMap::remove` on an `FxHashMap`: takes the value of `id` out,
/// if it has one; every other key is unchanged.
#[verifier::external_body]
fn fx_map_remove<T>(m: &mut ChannelTable<T>, id: u16) -> (r: Option<UnboundedSender<T>>)
    ensures
        final(m)@ == old(m)@.remove(id),
        old(m)@.contains_key(id) ==> (r matches Some(c) && c == old(m)@[id]),
        !old(m)@.contains_key(id) ==> r is None,
{
    m.remove(&id)
}

/// Calls `UnboundedSender::send`. It succeeds while the receiving half of the
/// channel is alive; that is not visible here, so nothing is stated of the
/// result: `true` when the message was queued, `false` when it was handed
/// back because the channel is closed.
#[verifier::external_body]
pub(crate) fn channel_send<T>(chan: &UnboundedSender<T>, message: T) -> (sent: bool) {
    chan.send(message).is_ok()
}

/// What a client lookup reports, given whether the client is known and,
/// if it is, whether its channel took the command.
pub open spec fn spec_send_outcome(id: u16, known: bool, sent: bool) -> NonCriticalResult<()> {
    if !known {
        Err(NonCriticalError::ClientIsNotFound { id, chan_closed: false })
    } else if sent {
        Ok(())
    } else {
        Err(NonCriticalError::ClientIsNotFound { id, chan_closed: true })
    }
}

/// The result of handing a command to client `id` whose channel was found:
/// success when it took the command, otherwise the channel is closed.
pub fn sent_outcome(id: u16, sent: bool) -> (r: NonCriticalResult<()>)
    ensures
        r == spec_send_outcome(id, true, sent),
{
    if sent {
        Ok(())
    } else {
        Err(NonCriticalError::ClientIsNotFound { id, chan_closed: true })
    }
}

/// Simple mapping for id:channel functionality
#[verifier::reject_recursive_types(T)]
pub struct ChannelsMap<T> {
    channels: ChannelTable<T>,
}

impl<T> View for ChannelsMap<T> {
    type V = Map<u16, UnboundedSender<T>>;

    closed spec fn view(&self) -> Map<u16, UnboundedSender<T>> {
        self.channels@
    }
}

impl<T> Default for ChannelsMap<T> {
    /// An empty mapping.
    fn default() -> (r: Self)
        ensures
            r@ == Map::<u16, UnboundedSender<T>>::empty(),
    {
        let r = Self { channels: fx_map_new() };
        assert(r@ =~= Map::<u16, UnboundedSender<T>>::empty());
        r
    }
}

impl<T> From<ChannelTable<T>> for ChannelsMap<T> {
    /// A mapping that holds exactly the given channels.
    fn from(value: ChannelTable<T>) -> (r: Self)
        ensures
            r@ == value@,
    {
        Self { channels: value }
    }
}

impl<T> vstd::std_specs::convert::FromSpecImpl<ChannelTable<T>> for ChannelsMap<T> {
    open spec fn obeys_from_spec() -> bool {
        true
    }

    open spec fn from_spec(v: ChannelTable<T>) -> Self {
        Self::from_table(v)
    }
}

impl<T> ChannelsMap<T> {
    /// The mapping that holds exactly the channels of `v`.
    pub closed spec fn from_table(v: ChannelTable<T>) -> Self {
        ChannelsMap { channels: v }
    }

    /// Maps `id` to `chan`, replacing any channel `id` had.
    pub fn insert(&mut self, id: u16, chan: UnboundedSender<T>)
        ensures
            final(self)@ == old(self)@.insert(id, chan),
    {
        fx_map_insert(&mut self.channels, id, chan);
    }

    /// Hands `command` to the channel of client `id`.
    pub fn send_command(&self, id: u16, command: T) -> (r: NonCriticalResult<()>)
        ensures
            !self@.contains_key(id) ==> r == spec_send_outcome(id, false, false),
            self@.contains_key(id) ==> (r == spec_send_outcome(id, true, true) || r
                == spec_send_outcome(id, true, false)),
    {
        let channel = match fx_map_get(&self.channels, id) {
            Some(c) => c,
            None => {
                return Err(NonCriticalError::ClientIsNotFound { id, chan_closed: false });
            },
        };
        let sent = channel_send(channel, command);
        sent_outcome(id, sent)
    }

    /// Takes the channel of client `id` out, together with `id`, which must
    /// go back to its pool.
    pub fn remove(&mut self, id: u16) -> (r: NonCriticalResult<ReturnId<u16, UnboundedSender<T>>>)
        ensures
            final(self)@ == old(self)@.remove(id),
            old(self)@.contains_key(id) ==> (r matches Ok(ret) && ret.id() == id && ret.value()
                == old(self)@[id]),
            !old(self)@.contains_key(id) ==> (r matches Err(
                NonCriticalError::ClientIsNotFound { id: i, chan_closed: true },
            ) && i == id),
    {
        match fx_map_remove(&mut self.channels, id) {
            Some(channel) => Ok(ReturnId::new(id, channel)),
            None => Err(NonCriticalError::ClientIsNotFound { id, chan_closed: true }),
        }
    }
}


/// What is inserted for a client is what removing that client gives back,
/// and afterwards the client is unknown; other clients are untouched.
pub proof fn lemma_insert_then_remove<T>(
    m: Map<u16, UnboundedSender<T>>,
    id: u16,
    chan: UnboundedSender<T>,
    other: u16,
)
    requires
        other != id,
    ensures
        m.insert(id, chan).contains_key(id),
        m.insert(id, chan)[id] == chan,
        !m.insert(id, chan).remove(id).contains_key(id),
        m.insert(id, chan).remove(id).contains_key(other) == m.contains_key(other),
{
}

} // verus!
