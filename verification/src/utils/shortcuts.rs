use vstd::prelude::*;

use crate::data::Protocol;
use crate::error::{NonCriticalError, NonCriticalResult};

verus! {

/// Converts an I/O outcome into a non-critical outcome, turning the I/O
/// error into a non-critical one with `error_fn`.
pub fn convert_io<T, F: FnOnce(std::io::Error) -> NonCriticalError>(
    result: std::io::Result<T>,
    error_fn: F,
) -> (r: NonCriticalResult<T>)
    requires
        result is Err ==> call_requires(error_fn, (result->Err_0,)),
    ensures
        match result {
            Ok(v) => r matches Ok(w) && w == v,
            Err(e) => r matches Err(f) && call_ensures(error_fn, (e,), f),
        },
{
    match result {
        Ok(v) => Ok(v),
        Err(e) => Err(error_fn(e)),
    }
}

/// Reports a failure to bind `port` for `protocol` as a non-critical
/// error that carries the I/O error.
pub fn assert_bound<T>(port: u16, protocol: Protocol, result: std::io::Result<T>) -> (r:
    NonCriticalResult<T>)
    ensures
        match result {
            Ok(v) => r matches Ok(w) && w == v,
            Err(e) => r matches Err(NonCriticalError::FailedToBindAddress { error, port: p, protocol: q })
                && error == e && p == port && q == protocol,
        },
{
    match result {
        Ok(v) => Ok(v),
        Err(error) => Err(NonCriticalError::FailedToBindAddress { error, port, protocol }),
    }
}

} // verus!
