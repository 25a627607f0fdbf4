//! The numbers of one platform's priority calls, and the host's own.

use crate::priority::WhichPriority;
use vstd::prelude::*;

verus! {

/// The platform's identifier type for processes, process groups and users.
#[allow(non_camel_case_types)]
pub type id_t = libc::id_t;

/// The numbers by which a platform's priority calls name the kinds of target,
/// bound niceness values and report errors. Resolved once per build target;
/// what this crate does with a table, it does with every table.
#[derive(Debug, Clone, Copy, PartialEq, Eq, Structural)]
pub struct Platform {
    /// Tag of [`WhichPriority::Process`].
    pub process: i32,
    /// Tag of [`WhichPriority::ProcessGroup`].
    pub process_group: i32,
    /// Tag of [`WhichPriority::User`].
    pub user: i32,
    /// Least niceness value, which is the highest priority.
    pub minimum: i8,
    /// Greatest niceness value, which is the lowest priority.
    pub maximum: i8,
    /// Error code for "invalid argument".
    pub invalid_argument: i32,
    /// Error code for "no such process".
    pub no_such_process: i32,
    /// First error code for "permission denied".
    pub access_denied: i32,
    /// Second error code for "permission denied".
    pub not_permitted: i32,
}

/// Narrows a kernel integer to the 8-bit niceness domain, keeping the low
/// eight bits. A value between -128 and 127 is unchanged.
pub fn narrow(wide: i32) -> (value: i8)
    ensures
        value == wide as i8,
        -128 <= wide <= 127 ==> value == wide,
{
    #[verifier::truncate]
    (wide as i8)
}

/// Reads `libc::PRIO_PROCESS`, which `libc` defines as 0 on every target that
/// has it.
#[verifier::external_body]
fn libc_prio_process() -> (tag: i32)
    ensures
        tag == 0,
{
    libc::PRIO_PROCESS as i32
}

/// Reads `libc::PRIO_PGRP`, which `libc` defines as 1 on every target that has
/// it.
#[verifier::external_body]
fn libc_prio_pgrp() -> (tag: i32)
    ensures
        tag == 1,
{
    libc::PRIO_PGRP as i32
}

/// Reads `libc::PRIO_USER`, which `libc` defines as 2 on every target that has
/// it.
#[verifier::external_body]
fn libc_prio_user() -> (tag: i32)
    ensures
        tag == 2,
{
    libc::PRIO_USER as i32
}

/// Reads `libc::PRIO_MIN`, which `libc` defines as -20 on every target that
/// has it.
#[verifier::external_body]
fn libc_prio_min() -> (bound: i32)
    ensures
        bound == -20,
{
    libc::PRIO_MIN as i32
}

/// Reads `libc::PRIO_MAX`, which `libc` defines as 20 on every target that has
/// it.
#[verifier::external_body]
fn libc_prio_max() -> (bound: i32)
    ensures
        bound == 20,
{
    libc::PRIO_MAX as i32
}

/// Reads `libc::EINVAL`, `libc::ESRCH`, `libc::EACCES` and `libc::EPERM`, in
/// this order. Their numbers differ from target to target; on every target
/// that has the four, `libc` defines none of them as 0 and no two as equal.
#[verifier::external_body]
fn libc_error_codes() -> (codes: (i32, i32, i32, i32))
    ensures
        codes.0 != 0 && codes.1 != 0 && codes.2 != 0 && codes.3 != 0,
        codes.0 != codes.1 && codes.0 != codes.2 && codes.0 != codes.3,
        codes.1 != codes.2 && codes.1 != codes.3 && codes.2 != codes.3,
{
    (libc::EINVAL as i32, libc::ESRCH as i32, libc::EACCES as i32, libc::EPERM as i32)
}

impl Platform {
    /// A table is coherent when it can tell apart everything that the
    /// priority calls distinguish: the three kinds of target have three
    /// different tags, the niceness range is not empty, no error code is 0
    /// (which means "no error"), "invalid argument" is none of the recoverable
    /// codes, and "no such process" is neither code for "permission denied".
    pub open spec fn coherent(self) -> bool {
        &&& self.process != self.process_group
        &&& self.process != self.user
        &&& self.process_group != self.user
        &&& self.minimum <= self.maximum
        &&& self.invalid_argument != 0
        &&& self.no_such_process != 0
        &&& self.access_denied != 0
        &&& self.not_permitted != 0
        &&& self.invalid_argument != self.no_such_process
        &&& self.invalid_argument != self.access_denied
        &&& self.invalid_argument != self.not_permitted
        &&& self.no_such_process != self.access_denied
        &&& self.no_such_process != self.not_permitted
    }

    /// The tag that stands for `kind` in a call.
    pub open spec fn tag_of(self, kind: WhichPriority) -> i32 {
        match kind {
            WhichPriority::Process => self.process,
            WhichPriority::ProcessGroup => self.process_group,
            WhichPriority::User => self.user,
        }
    }

    /// Whether `priority` lies between the least and the greatest niceness
    /// value, both included.
    pub open spec fn in_range(self, priority: i8) -> bool {
        self.minimum <= priority <= self.maximum
    }

    /// Builds a table from the platform's raw constants. The two bounds come as
    /// the kernel's wide integers and are narrowed to the niceness domain.
    pub fn new(
        process: i32,
        process_group: i32,
        user: i32,
        least: i32,
        greatest: i32,
        invalid_argument: i32,
        no_such_process: i32,
        access_denied: i32,
        not_permitted: i32,
    ) -> (platform: Platform)
        ensures
            platform == (Platform {
                process,
                process_group,
                user,
                minimum: least as i8,
                maximum: greatest as i8,
                invalid_argument,
                no_such_process,
                access_denied,
                not_permitted,
            }),
            -128 <= least <= 127 ==> platform.minimum == least,
            -128 <= greatest <= 127 ==> platform.maximum == greatest,
    {
        Platform {
            process,
            process_group,
            user,
            minimum: narrow(least),
            maximum: narrow(greatest),
            invalid_argument,
            no_such_process,
            access_denied,
            not_permitted,
        }
    }

    /// The table of the platform that this crate was built for, as the `libc`
    /// crate gives it: the tags 0, 1 and 2 and the bounds -20 and 20, which are
    /// the same on every target, and the target's own four error codes.
    pub fn host() -> (platform: Platform)
        ensures
            platform.process == 0,
            platform.process_group == 1,
            platform.user == 2,
            platform.minimum == -20,
            platform.maximum == 20,
            platform.access_denied != platform.not_permitted,
            platform.coherent(),
    {
        let codes = libc_error_codes();
        Platform::new(
            libc_prio_process(),
            libc_prio_pgrp(),
            libc_prio_user(),
            libc_prio_min(),
            libc_prio_max(),
            codes.0,
            codes.1,
            codes.2,
            codes.3,
        )
    }

    /// Tests whether the table is coherent.
    pub fn is_coherent(&self) -> (ok: bool)
        ensures
            ok == self.coherent(),
    {
        let kinds_differ = self.process != self.process_group && self.process != self.user
            && self.process_group != self.user;
        let codes_are_errors = self.invalid_argument != 0 && self.no_such_process != 0
            && self.access_denied != 0 && self.not_permitted != 0;
        let fault_stands_apart = self.invalid_argument != self.no_such_process
            && self.invalid_argument != self.access_denied && self.invalid_argument
            != self.not_permitted;
        let missing_stands_apart = self.no_such_process != self.access_denied
            && self.no_such_process != self.not_permitted;
        kinds_differ && self.minimum <= self.maximum && codes_are_errors && fault_stands_apart
            && missing_stands_apart
    }

    /// Tests whether `priority` is a niceness value of this platform.
    pub fn admits(&self, priority: i8) -> (ok: bool)
        ensures
            ok == self.in_range(priority),
    {
        self.minimum <= priority && priority <= self.maximum
    }
}

} // verus!
