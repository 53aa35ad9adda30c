use vstd::prelude::*;

verus! {

/// A host name is accepted when it neither starts nor ends with a dot and
/// all of its bytes are ASCII.
pub open spec fn spec_is_valid_host(s: Seq<u8>) -> bool {
    &&& !(s.len() > 0 && s[0] == 0x2eu8)
    &&& !(s.len() > 0 && s.last() == 0x2eu8)
    &&& forall|i: int| 0 <= i < s.len() ==> #[trigger] s[i] < 0x80
}

/// Checks a host name: no leading or trailing dot, ASCII only.
pub fn is_valid_host(buf: &[u8]) -> (r: bool)
    ensures
        r == spec_is_valid_host(buf@),
{
    let len = buf.len();
    if len > 0 && (buf[0] == 0x2e || buf[len - 1] == 0x2e) {
        return false;
    }
    let mut i: usize = 0;
    while i < len
        invariant
            len == buf@.len(),
            i <= len,
            forall|k: int| 0 <= k < i ==> #[trigger] buf@[k] < 0x80,
        decreases len - i,
    {
        if buf[i] >= 0x80 {
            return false;
        }
        i += 1;
    }
    true
}

} // verus!
