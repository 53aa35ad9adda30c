use vstd::prelude::*;

verus! {

/// Building a value from its entry in the configuration.
pub trait FromConfig<Entry>: Sized {
    fn from_config(entry: &Entry) -> Self;
}

} // verus!
