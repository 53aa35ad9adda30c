use vstd::prelude::*;

use super::compiler::cold_fn;
use crate::error::{NonCriticalError, NonCriticalResult};

verus! {

/// Turns the outcome of handing a command to a client into the result
/// reported to the server's owner: a failed hand-over means the client no
/// longer exists.
pub fn treat_send_result<E>(result: Result<(), E>) -> (r: NonCriticalResult<()>)
    ensures
        result is Ok ==> r is Ok,
        result is Err ==> r matches Err(NonCriticalError::ClientDoesNotExists),
{
    if result.is_err() {
        cold_fn();
        Err(NonCriticalError::ClientDoesNotExists)
    } else {
        Ok(())
    }
}

/// Borrows the serving proxy of a client, or reports that there is no
/// server.
pub fn require_proxy<P>(opt: &mut Option<P>) -> (r: NonCriticalResult<&mut P>)
    ensures
        match *old(opt) {
            Some(p) => r is Ok && *r->Ok_0 == p && *final(opt) == Some(*final(r->Ok_0)),
            None => r matches Err(NonCriticalError::NoServer) && *final(opt) is None,
        },
{
    match opt {
        Some(proxy) => Ok(proxy),
        None => {
            cold_fn();
            Err(NonCriticalError::NoServer)
        },
    }
}

} // verus!
