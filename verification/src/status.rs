//! Typed result model for the native layer's integer status codes.
//!
//! The native filesystem routines signal failure through non-zero integer
//! returns (and through short write counts). This module fixes the small
//! taxonomy those signals are collapsed into and proves the mapping exact.

use vstd::prelude::*;

verus! {

/// Classification of every failure this library surfaces.
#[derive(Clone, Copy, Debug, PartialEq, Eq, Structural)]
pub enum Error {
    /// The native mount call returned this non-zero status code.
    MountFailed(i32),
    /// A composed path (terminator included) did not fit the bounded buffer.
    PathTooLong,
    /// A simple native operation returned non-zero; no errno detail is kept.
    GenericOperationFailed,
    /// A directory entry name was not valid text.
    DecodeFailed,
}

/// Maps the status code of the native mount routine: zero is success, any
/// other code is carried in `MountFailed`.
pub fn mount_outcome(code: i32) -> (r: Result<(), Error>)
    ensures
        r is Ok <==> code == 0,
        code != 0 ==> r == Result::<(), Error>::Err(Error::MountFailed(code)),
{
    if code == 0 {
        Ok(())
    } else {
        Err(Error::MountFailed(code))
    }
}

/// Decides whether a single-path lookup resolved: zero does, anything else
/// is absence — "not found" and "lookup failed" are conflated by design.
pub fn lookup_resolves(code: i32) -> (b: bool)
    ensures
        b <==> code == 0,
{
    code == 0
}

/// Maps the status code of a simple native operation (mkdir, rmdir): zero is
/// success, anything else collapses to `GenericOperationFailed`.
pub fn op_outcome(code: i32) -> (r: Result<(), Error>)
    ensures
        r is Ok <==> code == 0,
        code != 0 ==> r == Result::<(), Error>::Err(Error::GenericOperationFailed),
{
    if code == 0 {
        Ok(())
    } else {
        Err(Error::GenericOperationFailed)
    }
}

} // verus!
