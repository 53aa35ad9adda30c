use vstd::prelude::*;

verus! {

/// Marks a path that is expected to run rarely. It does nothing.
pub fn cold_fn() {
}

/// Hints that `val` is expected to be `true`; returns `val` unchanged.
pub fn likely(val: bool) -> (r: bool)
    ensures
        r == val,
{
    if val {
        true
    } else {
        cold_fn();
        false
    }
}

/// Hints that `val` is expected to be `false`; returns `val` unchanged.
pub fn unlikely(val: bool) -> (r: bool)
    ensures
        r == val,
{
    if val {
        cold_fn();
        true
    } else {
        false
    }
}

} // verus!
