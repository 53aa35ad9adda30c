use vstd::prelude::*;

use crate::error::{NonCriticalError, NonCriticalResult};

verus! {

/// Borrows the proxy a client has created, or reports that no server was
/// created yet.
pub fn require_proxy<P>(opt: &mut Option<P>) -> (r: NonCriticalResult<&mut P>)
    ensures
        match *old(opt) {
            Some(p) => r is Ok && *r->Ok_0 == p && *final(opt) == Some(*final(r->Ok_0)),
            None => r matches Err(NonCriticalError::NoServerWasCreated) && *final(opt) is None,
        },
{
    match opt {
        Some(proxy) => Ok(proxy),
        None => Err(NonCriticalError::NoServerWasCreated),
    }
}

} // verus!
