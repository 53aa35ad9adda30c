use vstd::prelude::*;

verus! {

/// How many compression outcomes are counted before the success rate of
/// compression is judged.
pub const TRACE_TRIES: usize = 32;

/// Forwarded buffers at least this long are kept for reuse.
pub const RECLAIM_MIN_LEN: usize = 256;

/// The compression bookkeeping of one client connection of a TCP server.
///
/// Compression starts out enabled when the server was configured with it.
/// Once `TRACE_TRIES` outcomes have been counted, the share of successful
/// compressions is judged once: when fewer than a quarter of the counted
/// attempts succeeded, compression is switched off for good.
pub struct SlaveCompression {
    pub enabled: bool,
    pub compressed_num: usize,
    pub uncompressed_num: usize,
    pub tracing: bool,
}

/// What to do with one chunk of bytes read from a client.
pub struct ReadPlan {
    /// Try to compress the chunk before forwarding it.
    pub attempt_compression: bool,
    /// Switch compression off after this chunk.
    pub turn_off: bool,
}

/// The plan for a chunk of `read` bytes, with `threshold` the smallest chunk
/// that is worth compressing.
pub open spec fn spec_plan(s: SlaveCompression, read: usize, threshold: u16) -> ReadPlan {
    if !s.enabled {
        ReadPlan { attempt_compression: false, turn_off: false }
    } else {
        let total = s.compressed_num + s.uncompressed_num;
        ReadPlan {
            attempt_compression: read >= threshold,
            turn_off: s.tracing && total >= TRACE_TRIES && s.compressed_num < total / 4,
        }
    }
}

/// `x + 1`, wrapping around to 0 past `usize::MAX`.
pub open spec fn wrapping_inc(x: usize) -> usize {
    if x == usize::MAX {
        0
    } else {
        (x + 1) as usize
    }
}

/// The bookkeeping after a chunk handled by `plan`, where `succeeded` tells
/// whether the compression that was attempted produced output.
pub open spec fn spec_after(s: SlaveCompression, plan: ReadPlan, succeeded: bool) -> SlaveCompression {
    if !s.enabled {
        s
    } else {
        let total = s.compressed_num + s.uncompressed_num;
        SlaveCompression {
            enabled: !plan.turn_off,
            compressed_num: if plan.attempt_compression && succeeded {
                wrapping_inc(s.compressed_num)
            } else {
                s.compressed_num
            },
            uncompressed_num: if plan.attempt_compression && !succeeded {
                wrapping_inc(s.uncompressed_num)
            } else {
                s.uncompressed_num
            },
            tracing: s.tracing && total < TRACE_TRIES,
        }
    }
}

/// The counters can be added up without overflow; the total is only taken
/// while compression is on.
pub open spec fn total_fits(s: SlaveCompression) -> bool {
    s.enabled ==> s.compressed_num + s.uncompressed_num <= usize::MAX
}

impl SlaveCompression {
    /// Fresh bookkeeping; `enabled` tells whether the server compresses at all.
    pub fn new(enabled: bool) -> (r: Self)
        ensures
            r == (SlaveCompression {
                enabled,
                compressed_num: 0,
                uncompressed_num: 0,
                tracing: true,
            }),
    {
        SlaveCompression { enabled, compressed_num: 0, uncompressed_num: 0, tracing: true }
    }

    /// Decides how to handle a chunk of `read` bytes.
    pub fn plan(&self, read: usize, threshold: u16) -> (r: ReadPlan)
        requires
            total_fits(*self),
        ensures
            r == spec_plan(*self, read, threshold),
    {
        if !self.enabled {
            return ReadPlan { attempt_compression: false, turn_off: false };
        }
        let total = self.compressed_num + self.uncompressed_num;
        let mut turn_off = false;
        if self.tracing && total >= TRACE_TRIES {
            let min_num = total >> 2;
            assert(total >> 2 == total / 4) by (bit_vector);
            if self.compressed_num < min_num {
                turn_off = true;
            }
        }
        ReadPlan { attempt_compression: read >= threshold as usize, turn_off }
    }

    /// Records the chunk handled by `plan`; returns whether the forwarded
    /// chunk is the compressed one.
    pub fn record(&mut self, plan: &ReadPlan, succeeded: bool) -> (compressed: bool)
        requires
            total_fits(*old(self)),
        ensures
            *final(self) == spec_after(*old(self), *plan, succeeded),
            compressed == (old(self).enabled && plan.attempt_compression && succeeded),
    {
        if !self.enabled {
            return false;
        }
        let total = self.compressed_num + self.uncompressed_num;
        if self.tracing && total >= TRACE_TRIES {
            self.tracing = false;
        }
        let mut compressed = false;
        if plan.attempt_compression {
            if succeeded {
                self.compressed_num = self.compressed_num.wrapping_add(1);
                compressed = true;
            } else {
                self.uncompressed_num = self.uncompressed_num.wrapping_add(1);
            }
        }
        if plan.turn_off {
            self.enabled = false;
        }
        compressed
    }
}

/// Whether a forwarded buffer of `len` bytes is worth keeping for reuse.
pub fn is_reclaimable(len: usize) -> (r: bool)
    ensures
        r == (len >= RECLAIM_MIN_LEN),
{
    len >= RECLAIM_MIN_LEN
}

/// The first `read` bytes that were read, as an owned buffer: a reclaimed
/// buffer (which the bytes were read into) is cut to that length, otherwise
/// the bytes are copied out of the shared read buffer.
pub fn take_read(reclaimed: Option<Vec<u8>>, read: usize, buffer: &[u8]) -> (r: Vec<u8>)
    requires
        match reclaimed {
            Some(v) => read <= v@.len(),
            None => read <= buffer@.len(),
        },
    ensures
        r@ == match reclaimed {
            Some(v) => v@.take(read as int),
            None => buffer@.take(read as int),
        },
{
    match reclaimed {
        Some(mut v) => {
            v.truncate(read);
            v
        },
        None => vstd::slice::slice_to_vec(&buffer[0..read]),
    }
}


// ---------------------------------------------------------------------------
// Laws
// ---------------------------------------------------------------------------

/// Once compression is off it stays off, and no chunk is compressed.
pub proof fn lemma_disabled_stays_disabled(
    s: SlaveCompression,
    read: usize,
    threshold: u16,
    succeeded: bool,
)
    requires
        !s.enabled,
    ensures
        !spec_plan(s, read, threshold).attempt_compression,
        spec_after(s, spec_plan(s, read, threshold), succeeded) == s,
{
}

/// Compression is switched off only by the one judgement: while tracing,
/// once at least `TRACE_TRIES` outcomes are counted, when fewer than a
/// quarter of them were successful compressions.
pub proof fn lemma_turn_off_only_by_judgement(
    s: SlaveCompression,
    read: usize,
    threshold: u16,
    succeeded: bool,
)
    requires
        s.enabled,
        total_fits(s),
        !spec_after(s, spec_plan(s, read, threshold), succeeded).enabled,
    ensures
        s.tracing,
        s.compressed_num + s.uncompressed_num >= TRACE_TRIES,
        s.compressed_num * 4 < s.compressed_num + s.uncompressed_num,
{
}

/// The judgement happens at most once: after it, tracing has ended and
/// compression is never switched off again.
pub proof fn lemma_judged_once(s: SlaveCompression, read: usize, threshold: u16, succeeded: bool)
    requires
        s.enabled,
        !s.tracing,
    ensures
        !spec_after(s, spec_plan(s, read, threshold), succeeded).tracing,
        spec_after(s, spec_plan(s, read, threshold), succeeded).enabled,
{
}

/// A chunk shorter than the threshold is neither compressed nor counted.
pub proof fn lemma_short_chunk_not_counted(
    s: SlaveCompression,
    read: usize,
    threshold: u16,
    succeeded: bool,
)
    requires
        read < threshold,
    ensures
        !spec_plan(s, read, threshold).attempt_compression,
        spec_after(s, spec_plan(s, read, threshold), succeeded).compressed_num == s.compressed_num,
        spec_after(s, spec_plan(s, read, threshold), succeeded).uncompressed_num
            == s.uncompressed_num,
{
}


/// A chunk is compressed exactly when compression is on and the chunk is at
/// least as long as the threshold; whether tracing is still going on plays
/// no part.
pub proof fn lemma_attempt_iff_enabled_and_long(s: SlaveCompression, read: usize, threshold: u16)
    ensures
        spec_plan(s, read, threshold).attempt_compression <==> (s.enabled && read >= threshold),
{
}

/// Compression that is still on after a chunk, whatever that chunk was,
/// goes on compressing every later chunk that reaches the threshold.
pub proof fn lemma_survivor_keeps_compressing(
    s: SlaveCompression,
    read: usize,
    threshold: u16,
    succeeded: bool,
    next_read: usize,
    next_threshold: u16,
)
    requires
        spec_after(s, spec_plan(s, read, threshold), succeeded).enabled,
        next_read >= next_threshold,
    ensures
        spec_plan(
            spec_after(s, spec_plan(s, read, threshold), succeeded),
            next_read,
            next_threshold,
        ).attempt_compression,
{
}

} // verus!
