use vstd::prelude::*;

verus! {

/// Whether a buffer of `len` bytes read from a client is forwarded
/// compressed: with a configured threshold, when its length taken modulo
/// 2^16 reaches the threshold; without one, always.
pub fn should_compress(len: usize, threshold: Option<u16>) -> (r: bool)
    ensures
        r == match threshold {
            Some(t) => len as u16 >= t,
            None => true,
        },
{
    match threshold {
        Some(t) => len as u16 >= t,
        None => true,
    }
}

} // verus!
