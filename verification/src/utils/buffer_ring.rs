use vstd::prelude::*;

verus! {

/// Makes `heapless::Vec`, a vector of fixed capacity `N`, known to the
/// verifier as an opaque type; its contents are named by `ring_buffers`.
#[verifier::external_type_specification]
#[verifier::external_body]
#[verifier::reject_recursive_types(T)]
pub struct ExHeaplessVec<T, const N: usize>(heapless::Vec<T, N>);

/// How many buffers a ring keeps at most.
pub const RING_CAPACITY: usize = 64;

/// The buffers held by a fixed-capacity `heapless::Vec`, oldest first.
pub uninterp spec fn ring_buffers(v: heapless::Vec<Vec<u8>, 64>) -> Seq<Seq<u8>>;

/// Calls `heapless::Vec::new`, which makes an empty vector.
#[verifier::external_body]
fn heapless_new() -> (v: heapless::Vec<Vec<u8>, 64>)
    ensures
        ring_buffers(v) == Seq::<Seq<u8>>::empty(),
{
    heapless::Vec::new()
}

/// Calls `heapless::Vec::push`: when fewer than 64 items are held, the item
/// is appended and `Ok(())` returned; otherwise the vector is unchanged and
/// the item is handed back in `Err`.
#[verifier::external_body]
fn heapless_push(v: &mut heapless::Vec<Vec<u8>, 64>, item: Vec<u8>) -> (r: Result<(), Vec<u8>>)
    ensures
        ring_buffers(*old(v)).len() < 64 ==> r is Ok && ring_buffers(*final(v)) == ring_buffers(
            *old(v),
        ).push(item@),
        ring_buffers(*old(v)).len() >= 64 ==> (r matches Err(back) && back@ == item@
            && ring_buffers(*final(v)) == ring_buffers(*old(v))),
        ring_buffers(*final(v)).len() <= 64,
{
    v.push(item)
}

/// Calls `heapless::Vec::pop`: removes and returns the last item, or returns
/// `None` when the vector is empty.
#[verifier::external_body]
fn heapless_pop(v: &mut heapless::Vec<Vec<u8>, 64>) -> (r: Option<Vec<u8>>)
    ensures
        ring_buffers(*old(v)).len() == 0 ==> r is None && ring_buffers(*final(v)) == ring_buffers(
            *old(v),
        ),
        ring_buffers(*old(v)).len() > 0 ==> (r matches Some(x) && x@ == ring_buffers(
            *old(v),
        ).last() && ring_buffers(*final(v)) == ring_buffers(*old(v)).drop_last()),
        ring_buffers(*final(v)).len() <= 64,
{
    v.pop()
}

/// The buffer handed back when a ring is full.
#[derive(Debug, Clone)]
pub struct RingIsFull(pub Vec<u8>);

/// A bounded stack of spare buffers that can be reused instead of
/// allocating new ones.
pub struct BufferRing {
    ring: heapless::Vec<Vec<u8>, 64>,
}

impl View for BufferRing {
    type V = Seq<Seq<u8>>;

    closed spec fn view(&self) -> Seq<Seq<u8>> {
        ring_buffers(self.ring)
    }
}

impl BufferRing {
    /// Takes the buffer stored last, if any.
    pub fn try_pop(&mut self) -> (r: Option<Vec<u8>>)
        ensures
            old(self)@.len() == 0 ==> r is None && final(self)@ == old(self)@,
            old(self)@.len() > 0 ==> (r matches Some(x) && x@ == old(self)@.last() && final(self)@
                == old(self)@.drop_last()),
            final(self)@.len() <= RING_CAPACITY,
    {
        heapless_pop(&mut self.ring)
    }

    /// Stores a buffer; when the ring already holds `RING_CAPACITY` buffers,
    /// it is left as it is and the buffer is handed back.
    pub fn push(&mut self, buffer: Vec<u8>) -> (r: Result<(), RingIsFull>)
        ensures
            old(self)@.len() < RING_CAPACITY ==> r is Ok && final(self)@ == old(self)@.push(
                buffer@,
            ),
            old(self)@.len() >= RING_CAPACITY ==> (r matches Err(RingIsFull(back)) && back@
                == buffer@ && final(self)@ == old(self)@),
            final(self)@.len() <= RING_CAPACITY,
    {
        match heapless_push(&mut self.ring, buffer) {
            Ok(()) => Ok(()),
            Err(back) => Err(RingIsFull(back)),
        }
    }

    pub fn new() -> (r: Self)
        ensures
            r@ == Seq::<Seq<u8>>::empty(),
    {
        Self { ring: heapless_new() }
    }
}


/// A buffer stored in a ring that is not full is the next one taken out,
/// and taking it leaves the ring as it was before.
pub proof fn lemma_push_then_pop(ring: Seq<Seq<u8>>, buffer: Seq<u8>)
    requires
        ring.len() < RING_CAPACITY,
    ensures
        ring.push(buffer).len() <= RING_CAPACITY,
        ring.push(buffer).len() > 0,
        ring.push(buffer).last() == buffer,
        ring.push(buffer).drop_last() == ring,
{
    assert(ring.push(buffer).drop_last() =~= ring);
}

} // verus!
