use vstd::prelude::*;

verus! {

/// A buffer to read a payload into: either space borrowed from a larger
/// buffer, or a buffer allocated for the purpose (which is released when
/// the chunk is dropped).
pub enum MaybeDeallocateChunk<'a> {
    Borrowed(&'a mut [u8]),
    Allocated(Vec<u8>),
}

impl<'a> View for MaybeDeallocateChunk<'a> {
    type V = Seq<u8>;

    open spec fn view(&self) -> Seq<u8> {
        match self {
            MaybeDeallocateChunk::Borrowed(s) => s@,
            MaybeDeallocateChunk::Allocated(v) => v@,
        }
    }
}

impl<'a> MaybeDeallocateChunk<'a> {
    /// Whether the chunk owns its memory.
    pub open spec fn deallocates(&self) -> bool {
        self is Allocated
    }

    /// The bytes of the chunk, to be written into.
    pub fn data(&mut self) -> (r: &mut [u8])
        ensures
            r@ == old(self)@,
            final(self)@ == final(r)@,
            final(self).deallocates() == old(self).deallocates(),
    {
        match self {
            MaybeDeallocateChunk::Borrowed(s) => s,
            MaybeDeallocateChunk::Allocated(v) => v.as_mut_slice(),
        }
    }

    pub fn len(&self) -> (r: usize)
        ensures
            r == self@.len(),
    {
        match self {
            MaybeDeallocateChunk::Borrowed(s) => s.len(),
            MaybeDeallocateChunk::Allocated(v) => v.len(),
        }
    }

    pub fn is_empty(&self) -> (r: bool)
        ensures
            r == (self@.len() == 0),
    {
        self.len() == 0
    }

    /// The first `of_size` bytes of the chunk, once they were written.
    pub fn data_initialized(&self, of_size: usize) -> (r: &[u8])
        requires
            of_size <= self@.len(),
        ensures
            r@ == self@.take(of_size as int),
    {
        match self {
            MaybeDeallocateChunk::Borrowed(s) => &s[0..of_size],
            MaybeDeallocateChunk::Allocated(v) => &v.as_slice()[0..of_size],
        }
    }

    /// All bytes of the chunk, once they were written.
    pub fn full_data_initialized(&self) -> (r: &[u8])
        ensures
            r@ == self@,
    {
        match self {
            MaybeDeallocateChunk::Borrowed(s) => s,
            MaybeDeallocateChunk::Allocated(v) => v.as_slice(),
        }
    }
}

impl<'a> MaybeDeallocateChunk<'a> {
    /// Borrows `slice` up to `sufficient` bytes when it is at least that
    /// long; otherwise allocates a buffer of `sufficient` bytes.
    pub fn new_sufficiency_clamped(slice: &'a mut [u8], sufficient: usize) -> (r: Self)
        ensures
            old(slice)@.len() >= sufficient ==> !r.deallocates() && r@ == old(slice)@.take(
                sufficient as int,
            ),
            old(slice)@.len() < sufficient ==> r.deallocates() && r@ == Seq::new(
                sufficient as nat,
                |i: int| 0u8,
            ),
    {
        if slice.len() >= sufficient {
            let (head, _tail) = slice.split_at_mut(sufficient);
            Self::new(head)
        } else {
            Self::new_deallocated(Vec::new(), sufficient)
        }
    }

    /// Simple pattern: allocates only if slice has
    /// insufficient space
    pub fn new_sufficiency(slice: &'a mut [u8], sufficient: usize) -> (r: Self)
        ensures
            old(slice)@.len() >= sufficient ==> !r.deallocates() && r@ == old(slice)@,
            old(slice)@.len() < sufficient ==> r.deallocates() && r@ == Seq::new(
                sufficient as nat,
                |i: int| 0u8,
            ),
    {
        if slice.len() >= sufficient {
            Self::new(slice)
        } else {
            Self::new_deallocated(Vec::new(), sufficient)
        }
    }

    /// Borrows all of `slice`.
    pub fn new(slice: &'a mut [u8]) -> (r: Self)
        ensures
            !r.deallocates(),
            r@ == old(slice)@,
    {
        MaybeDeallocateChunk::Borrowed(slice)
    }

    /// Takes `vec` as a chunk of exactly `exact_capacity` bytes: its bytes
    /// come first, cut or padded with zeros to that length.
    pub fn new_deallocated(vec: Vec<u8>, exact_capacity: usize) -> (r: Self)
        ensures
            r.deallocates(),
            r@.len() == exact_capacity,
            exact_capacity <= vec@.len() ==> r@ == vec@.take(exact_capacity as int),
            exact_capacity > vec@.len() ==> r@.take(vec@.len() as int) == vec@,
            forall|i: int| vec@.len() <= i < exact_capacity ==> #[trigger] r@[i] == 0u8,
    {
        let mut vec = vec;
        vec.resize(exact_capacity, 0);
        MaybeDeallocateChunk::Allocated(vec)
    }
}

} // verus!
