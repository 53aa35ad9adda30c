use vstd::prelude::*;

verus! {

/// `r` is the longest prefix of `s` that does not contain `stop`.
pub open spec fn is_prefix_until(s: Seq<u8>, stop: u8, r: Seq<u8>) -> bool {
    &&& r.len() <= s.len()
    &&& r == s.take(r.len() as int)
    &&& !r.contains(stop)
    &&& (r.len() == s.len() || s[r.len() as int] == stop)
}

/// The first segment of an absolute request path, without its query:
/// for `/root/rest?q` it is `root`, for `/root?q` it is `root`.
/// `None` when the path does not start with a slash.
pub open spec fn spec_get_root_path(src: Seq<u8>, r: Option<Seq<u8>>) -> bool {
    if src.len() == 0 || src[0] != 0x2fu8 {
        r is None
    } else {
        exists|seg: Seq<u8>|
            #![trigger is_prefix_until(src.skip(1), 0x2fu8, seg)]
            is_prefix_until(src.skip(1), 0x2fu8, seg) && (r matches Some(root)
                && is_prefix_until(seg, 0x3fu8, root))
    }
}

fn prefix_until(s: &[u8], stop: u8) -> (r: &[u8])
    ensures
        is_prefix_until(s@, stop, r@),
{
    let len = s.len();
    let mut i: usize = 0;
    while i < len && s[i] != stop
        invariant
            len == s@.len(),
            i <= len,
            forall|k: int| 0 <= k < i ==> #[trigger] s@[k] != stop,
        decreases len - i,
    {
        i += 1;
    }
    let r = &s[0..i];
    assert(r@ == s@.take(i as int));
    assert forall|k: int| 0 <= k < r@.len() implies #[trigger] r@[k] != stop by {
        assert(r@[k] == s@[k]);
    }
    r
}

/// Returns the first segment of an absolute request path with its query
/// stripped, or `None` when the path does not start with a slash.
pub fn get_root_path(src: &[u8]) -> (r: Option<&[u8]>)
    ensures
        spec_get_root_path(src@, match r {
            Some(x) => Some(x@),
            None => None,
        }),
{
    let len = src.len();
    if len == 0 || src[0] != 0x2f {
        return None;
    }
    let rest = &src[1..len];
    assert(rest@ == src@.skip(1));
    let seg = prefix_until(rest, 0x2f);
    let root = prefix_until(seg, 0x3f);
    Some(root)
}

} // verus!
