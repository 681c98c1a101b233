//! Status codes reported by the storage runtime.
//!
//! The runtime reports the outcome of an operation as a signed integer:
//! zero for success, a negative value for an error. A positive value never
//! comes from a well-behaved runtime on a status channel.

use vstd::prelude::*;

verus! {

/// An error identifier: the positive magnitude of a negative status code.
#[derive(Clone, Copy, Debug, PartialEq, Eq, Structural)]
pub struct Errno(pub i32);

/// Identifier of the out-of-memory error.
pub const ENOMEM: i32 = 12;

/// Identifier of the "in progress" condition: the operation was accepted and
/// completes asynchronously.
pub const EINPROGRESS: i32 = 115;

/// Whether `code` is a status that the runtime may report: zero, or a
/// negative value whose magnitude is representable.
pub open spec fn is_status(code: i32) -> bool {
    i32::MIN < code <= 0
}

/// What a status code stands for: success for zero, otherwise the error
/// whose identifier is the code's magnitude.
pub open spec fn status_result(code: i32) -> Result<(), Errno> {
    if code == 0 {
        Ok(())
    } else {
        Err(Errno((-code) as i32))
    }
}

/// What a size-or-error code stands for: the size itself where it is not
/// negative, otherwise the error whose identifier is the code's magnitude.
pub open spec fn size_result(code: i32) -> Result<usize, Errno> {
    if code >= 0 {
        Ok(code as usize)
    } else {
        Err(Errno((-code) as i32))
    }
}

/// Converts a status code to a `Result`: `Ok(())` for zero, and for a
/// negative code the error with the code's magnitude.
///
/// A positive code breaks the runtime's contract and is not accepted, and
/// neither is the one negative value that has no magnitude.
pub fn to_result(code: i32) -> (r: Result<(), Errno>)
    requires
        is_status(code),
    ensures
        r == status_result(code),
        r is Ok <==> code == 0,
        r matches Err(e) ==> e.0 == -code && e.0 > 0,
{
    if code == 0 {
        Ok(())
    } else {
        Err(Errno(-code))
    }
}

/// Converts a size-or-error code to a `Result`: `Ok(size)` for a code that
/// is not negative, and for a negative code the error with the code's
/// magnitude.
pub fn to_result_size(code: i32) -> (r: Result<usize, Errno>)
    requires
        code > i32::MIN,
    ensures
        r == size_result(code),
        r matches Ok(size) ==> code >= 0 && size == code,
        r matches Err(e) ==> code < 0 && e.0 == -code,
{
    if code < 0 {
        Err(Errno(-code))
    } else {
        Ok(code as usize)
    }
}

} // verus!
