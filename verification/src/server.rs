//! The remote add-two operation.
//!
//! In deployment this call crosses the network, so a caller must be ready
//! for a generic "remote call failed" condition; the computation itself
//! never fails, and the local model always returns `Ok`.

use vstd::prelude::*;

verus! {

/// The one error a remote call can signal: a transport-level failure.
/// It carries no detail; the pages only display that the call failed.
#[derive(Clone, Copy, PartialEq, Eq, Structural, Debug)]
pub enum ServerError {
    RemoteCallFailed,
}

/// What `adding_two` returns: the two's-complement sum of its arguments,
/// wrapping on overflow.
pub open spec fn spec_adding_two(x: i32, y: i32) -> i32 {
    vstd::wrapping::i32_specs::wrapping_add(x, y)
}

/// Adds two integers. Always succeeds locally; on overflow the sum wraps
/// rather than aborting the caller.
pub fn adding_two(x: i32, y: i32) -> (r: Result<i32, ServerError>)
    ensures
        r == Ok::<i32, ServerError>(spec_adding_two(x, y)),
        i32::MIN <= x + y <= i32::MAX ==> r == Ok::<i32, ServerError>((x + y) as i32),
{
    Ok(x.wrapping_add(y))
}

} // verus!
