//! The thread's error slot, in which the kernel reports why a call failed.
//!
//! The slot belongs to the thread, not to this crate: any call into the kernel
//! may write it. So nothing is known of what it holds beyond the moment at
//! which it is read.

use vstd::prelude::*;

verus! {

/// Writes `code` into the thread's error slot with `errno::set_errno`.
/// The function returns nothing and changes none of its arguments, so it has
/// no contract.
#[verifier::external_body]
pub(crate) fn set_error_slot(code: i32) {
    errno::set_errno(errno::Errno(code))
}

/// Reads the thread's error slot with `errno::errno`. What it holds depends on
/// the calls that the thread made before, so nothing is claimed of the code.
#[verifier::external_body]
pub(crate) fn error_slot() -> (code: i32) {
    errno::errno().0
}

} // verus!
