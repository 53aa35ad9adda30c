use vstd::prelude::*;

verus! {

/// A value that was obtained together with an identifier of a pool; the
/// identifier must be handed back to its pool once the value is taken.
#[must_use]
pub struct ReturnId<T, V> {
    id: T,
    value: V,
}

impl<T, V> ReturnId<T, V> {
    pub closed spec fn id(&self) -> T {
        self.id
    }

    pub closed spec fn value(&self) -> V {
        self.value
    }

    pub fn new(id: T, value: V) -> (r: Self)
        ensures
            r.id() == id,
            r.value() == value,
    {
        Self { id, value }
    }

    /// Splits into the identifier to hand back to the pool and the value.
    pub fn into_parts(self) -> (r: (T, V))
        ensures
            r.0 == self.id(),
            r.1 == self.value(),
    {
        (self.id, self.value)
    }
}

} // verus!
