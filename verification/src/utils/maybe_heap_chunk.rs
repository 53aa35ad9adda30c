use vstd::prelude::*;

verus! {

/// Calls `Vec::capacity`: how many elements `v` can hold without
/// reallocating. That depends on the allocator; it is never less than the
/// length, and nothing more is stated.
#[verifier::external_body]
fn vec_capacity(v: &Vec<u8>) -> (r: usize)
    ensures
        r >= v@.len(),
{
    v.capacity()
}

/// A buffer that is either borrowed (from the stack, typically) or owned on
/// the heap.
pub enum MaybeHeapChunk<'a> {
    Stack(&'a mut [u8]),
    Heap(Vec<u8>),
}

impl<'a> View for MaybeHeapChunk<'a> {
    type V = Seq<u8>;

    open spec fn view(&self) -> Seq<u8> {
        match self {
            MaybeHeapChunk::Stack(s) => s@,
            MaybeHeapChunk::Heap(v) => v@,
        }
    }
}

impl<'a> MaybeHeapChunk<'a> {
    /// Whether the buffer is owned on the heap.
    pub open spec fn is_heap(&self) -> bool {
        self is Heap
    }

    /// The first `len` bytes of the buffer, once they were written.
    pub fn data_initialized(&self, len: usize) -> (r: &[u8])
        requires
            len <= self@.len(),
        ensures
            r@ == self@.take(len as int),
    {
        match self {
            MaybeHeapChunk::Stack(s) => &s[0..len],
            MaybeHeapChunk::Heap(v) => &v.as_slice()[0..len],
        }
    }

    /// The first `len` bytes of the buffer, to be written into.
    pub fn data_initialized_mut(&mut self, len: usize) -> (r: &mut [u8])
        requires
            len <= old(self)@.len(),
        ensures
            r@ == old(self)@.take(len as int),
            final(self)@ == final(r)@ + old(self)@.skip(len as int),
            final(self).is_heap() == old(self).is_heap(),
    {
        match self {
            MaybeHeapChunk::Stack(s) => {
                let (head, _tail) = s.split_at_mut(len);
                head
            },
            MaybeHeapChunk::Heap(v) => {
                let (head, _tail) = v.as_mut_slice().split_at_mut(len);
                head
            },
        }
    }

    /// All bytes of the buffer.
    pub fn data(&self) -> (r: &[u8])
        ensures
            r@ == self@,
    {
        match self {
            MaybeHeapChunk::Stack(s) => s,
            MaybeHeapChunk::Heap(v) => v.as_slice(),
        }
    }

    /// All bytes of the buffer, to be written into.
    pub fn data_mut(&mut self) -> (r: &mut [u8])
        ensures
            r@ == old(self)@,
            final(self)@ == final(r)@,
            final(self).is_heap() == old(self).is_heap(),
    {
        match self {
            MaybeHeapChunk::Stack(s) => s,
            MaybeHeapChunk::Heap(v) => v.as_mut_slice(),
        }
    }

    /// Borrows `inner`.
    pub fn stack_uninit(inner: &'a mut [u8]) -> (r: Self)
        ensures
            !r.is_heap(),
            r@ == old(inner)@,
    {
        MaybeHeapChunk::Stack(inner)
    }

    /// Owns `buf`, using all of its capacity: its bytes come first, then
    /// zeros up to the capacity.
    pub fn heap(buf: Vec<u8>) -> (r: Self)
        ensures
            r.is_heap(),
            r@.len() >= buf@.len(),
            r@.take(buf@.len() as int) == buf@,
            forall|i: int| buf@.len() <= i < r@.len() ==> #[trigger] r@[i] == 0u8,
    {
        let mut buf = buf;
        let capacity = vec_capacity(&buf);
        buf.resize(capacity, 0);
        MaybeHeapChunk::Heap(buf)
    }
}

} // verus!
