//! Scheduling priority ("niceness") of processes, process groups and users.
//!
//! The crate prepares the two priority calls of a Unix kernel and reads their
//! replies; entering the kernel is left to the caller. A call goes in three
//! steps:
//!
//! 1. [`WhichPriority::get`] or [`WhichPriority::set`] gives the pending call,
//!    with its arguments in the kernel's own terms;
//! 2. the caller runs `prepare` where the pending call has one, and makes the
//!    call;
//! 3. `finish` takes what the call returned, reads the thread's error slot and
//!    sorts the end of the call into a value, a recoverable [`PriorityError`]
//!    or a [`Fault`].
//!
//! `complete` is `finish` for a [`Reply`] that the caller captured itself. It
//! depends on nothing but its arguments, and its contract says exactly how
//! each reply is read.
//!
//! Every number that differs between platforms lives in a [`Platform`] table,
//! and every function is verified for every such table.

pub mod background;
pub mod laws;
pub mod outcome;
pub mod platform;
pub mod priority;
mod slot;

pub use crate::background::get_current_process_out_of_background;
pub use crate::background::get_current_thread_out_of_background;
pub use crate::background::is_current_process_in_background;
pub use crate::background::is_current_thread_in_background;
pub use crate::background::put_current_process_into_background;
pub use crate::background::put_current_thread_into_background;
pub use crate::background::Background;
pub use crate::background::BackgroundQuery;
pub use crate::background::BackgroundScope;
pub use crate::outcome::Checked;
pub use crate::outcome::Fault;
pub use crate::outcome::PriorityError;
pub use crate::outcome::Reply;
pub use crate::platform::id_t;
pub use crate::platform::Platform;
pub use crate::priority::GetPriority;
pub use crate::priority::SetPriority;
pub use crate::priority::WhichPriority;
