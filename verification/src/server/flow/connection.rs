use vstd::prelude::*;

use crate::error::FlowProcessError;

verus! {

/// The smallest spare space of the read buffer that is used to read a
/// forwarded payload into; with less, a buffer of this size is allocated.
pub const MIN_SPARE_TO_STORE: usize = 512;

/// A compressed payload is accepted only when it is shorter than the
/// configured maximum; otherwise serving the flow stops.
pub fn accepts_compressed_length(length: usize, max_compressed_size: usize) -> (r: bool)
    ensures
        r == (length < max_compressed_size),
{
    length < max_compressed_size
}

/// An uncompressed payload that is forwarded in pieces as it arrives.
pub struct ChunkedForward {
    /// The length announced for the payload.
    pub length: usize,
    /// How many of its bytes are still to be read from the connection.
    pub unbuffered: usize,
}

impl ChunkedForward {
    /// Starts a payload of `length` bytes, `buffered` of which were already
    /// in the read buffer and are forwarded at once.
    pub fn new(length: usize, buffered: usize) -> (r: Self)
        requires
            buffered <= length,
        ensures
            r.length == length,
            r.unbuffered == length - buffered,
    {
        ChunkedForward { length, unbuffered: length - buffered }
    }

    /// Whether the whole payload has been read.
    pub fn is_done(&self) -> (r: bool)
        ensures
            r == (self.unbuffered == 0),
    {
        self.unbuffered == 0
    }

    /// How many bytes the next read may fill: the announced length, bounded
    /// by the size of the chunk that is read into.
    pub fn next_read_len(&self, chunk_len: usize) -> (r: usize)
        ensures
            r == (if self.length < chunk_len {
                self.length
            } else {
                chunk_len
            }),
    {
        if self.length < chunk_len {
            self.length
        } else {
            chunk_len
        }
    }

    /// Accounts for `actually_read` bytes that were read and forwarded.
    /// A read of 0 bytes means the peer disconnected in the middle of the
    /// payload, which is an error.
    pub fn advance(&mut self, actually_read: usize) -> (r: Result<(), FlowProcessError>)
        requires
            actually_read <= old(self).unbuffered,
        ensures
            actually_read == 0 ==> r == Err::<(), FlowProcessError>(FlowProcessError::DisconnectedDuringForward)
                && *final(self) == *old(self),
            actually_read > 0 ==> r is Ok && final(self).length == old(self).length
                && final(self).unbuffered == old(self).unbuffered - actually_read,
    {
        if actually_read == 0 {
            return Err(FlowProcessError::DisconnectedDuringForward);
        }
        self.unbuffered = self.unbuffered - actually_read;
        Ok(())
    }
}

} // verus!
