//! The priority accessor: the two calls, prepared and read.

use crate::outcome::Checked;
use crate::outcome::Fault;
use crate::outcome::PriorityError;
use crate::outcome::Reply;
use crate::platform::id_t;
use crate::platform::narrow;
use crate::platform::Platform;
use crate::slot::error_slot;
use crate::slot::set_error_slot;
use vstd::prelude::*;

verus! {

/// The kind of target whose priority is read or written.
#[derive(Debug, Clone, Copy, PartialEq, Eq, Structural)]
pub enum WhichPriority {
    /// One process, named by its process identifier.
    Process,
    /// All processes of one process group, named by the group's identifier.
    ProcessGroup,
    /// All processes of one user, named by the user's identifier.
    User,
}

/// A "get priority" call that is ready to be made: the arguments, in the
/// kernel's own terms.
#[derive(Debug, Clone, Copy, PartialEq, Eq, Structural)]
pub struct GetPriority {
    /// Tag of the kind of target.
    pub which: i32,
    /// Identifier of the target.
    pub who: id_t,
}

/// A "set priority" call that is ready to be made: the arguments, in the
/// kernel's own terms.
#[derive(Debug, Clone, Copy, PartialEq, Eq, Structural)]
pub struct SetPriority {
    /// Tag of the kind of target.
    pub which: i32,
    /// Identifier of the target.
    pub who: id_t,
    /// The niceness value to set, as the kernel's integer.
    pub priority: i32,
}

impl Platform {
    /// How a "get priority" call ends, given the kernel's reply.
    ///
    /// Only the error code decides whether the call succeeded: a niceness value
    /// may be negative, so the returned integer alone cannot tell a value from a
    /// failure.
    pub open spec fn get_outcome(self, reply: Reply) -> Checked<i8> {
        if reply.error_code == 0 {
            Ok(Ok(reply.result as i8))
        } else if reply.error_code == self.invalid_argument {
            Err(Fault::InvalidArgument)
        } else if reply.error_code == self.no_such_process {
            Ok(Err(PriorityError::NotFound))
        } else {
            Err(Fault::UnexpectedErrno(reply.error_code))
        }
    }

    /// How a "set priority" call ends, given the kernel's reply.
    ///
    /// A returned 0 is success, whatever the error slot holds. Otherwise the
    /// error code decides.
    pub open spec fn set_outcome(self, reply: Reply) -> Checked<()> {
        if reply.result == 0 {
            Ok(Ok(()))
        } else if reply.error_code == self.invalid_argument {
            Err(Fault::InvalidArgument)
        } else if reply.error_code == self.no_such_process {
            Ok(Err(PriorityError::NotFound))
        } else if reply.error_code == self.access_denied || reply.error_code
            == self.not_permitted {
            Ok(Err(PriorityError::PermissionDenied))
        } else {
            Err(Fault::UnexpectedErrno(reply.error_code))
        }
    }
}

impl WhichPriority {
    /// The identifier that stands for the caller itself: the calling process,
    /// its process group, or its real user, depending on the kind of target.
    #[allow(non_upper_case_globals)]
    pub const CurrentProcessOrThread: id_t = 0;

    /// The "get priority" call for the target `who` of this kind.
    pub open spec fn query(self, who: id_t, platform: Platform) -> GetPriority {
        GetPriority { which: platform.tag_of(self), who }
    }

    /// The "set priority" call that gives the target `who` of this kind the
    /// niceness `priority`, widened without change of value.
    pub open spec fn change(self, who: id_t, priority: i8, platform: Platform) -> SetPriority {
        SetPriority { which: platform.tag_of(self), who, priority: priority as i32 }
    }

    /// The platform's tag for this kind of target.
    pub fn tag(self, platform: &Platform) -> (tag: i32)
        ensures
            tag == platform.tag_of(self),
    {
        match self {
            WhichPriority::Process => platform.process,
            WhichPriority::ProcessGroup => platform.process_group,
            WhichPriority::User => platform.user,
        }
    }

    /// Prepares the call that reads the niceness of the target `who`.
    ///
    /// The caller then runs [`GetPriority::prepare`], makes the call, and hands
    /// what it returned to [`GetPriority::finish`]. That may end in
    /// [`PriorityError::NotFound`].
    pub fn get(self, who: id_t, platform: &Platform) -> (call: GetPriority)
        ensures
            call == self.query(who, *platform),
    {
        GetPriority::new(self.tag(platform), who)
    }

    /// Prepares the call that sets the niceness of the target `who` to
    /// `priority`.
    ///
    /// The caller then makes the call and hands what it returned to
    /// [`SetPriority::finish`]. That may end in [`PriorityError::NotFound`] or
    /// [`PriorityError::PermissionDenied`].
    ///
    /// A niceness outside the platform's range is the caller's error and is
    /// excluded here rather than reported: test it with [`Platform::admits`].
    pub fn set(self, who: id_t, priority: i8, platform: &Platform) -> (call: SetPriority)
        requires
            platform.in_range(priority),
        ensures
            call == self.change(who, priority, *platform),
            call.priority == priority,
    {
        SetPriority::new(self.tag(platform), who, priority as i32)
    }
}

impl GetPriority {
    /// The call with the given arguments, as they stand.
    pub fn new(which: i32, who: id_t) -> (call: GetPriority)
        ensures
            call == (GetPriority { which, who }),
    {
        GetPriority { which, who }
    }

    /// Clears the thread's error slot. To be run immediately before the call
    /// is made, with nothing that enters the kernel in between: the slot is
    /// the only sign of failure that this call gives.
    pub fn prepare(&self) {
        set_error_slot(0)
    }

    /// Reads the thread's error slot and sorts the call's end by it, as
    /// [`GetPriority::complete`] does. To be run immediately after the call
    /// returned, with `result` the integer that it returned.
    ///
    /// The outcome is that of `complete` for the code that the slot held.
    pub fn finish(&self, result: i32, platform: &Platform) -> (outcome: Checked<i8>)
        ensures
            exists|error_code: i32|
                outcome == #[trigger] platform.get_outcome(Reply { result, error_code }),
    {
        let reply = Reply { result, error_code: error_slot() };
        self.complete(reply, platform)
    }

    /// Sorts the call's end by the kernel's reply.
    ///
    /// With no error reported, the result is the returned value narrowed to the
    /// niceness domain. "No such process" is [`PriorityError::NotFound`]. Every
    /// other error code is a [`Fault`]: "invalid argument" means that the
    /// caller paired kind and identifier wrongly, and any other code is one
    /// that this call does not give.
    pub fn complete(&self, reply: Reply, platform: &Platform) -> (outcome: Checked<i8>)
        ensures
            outcome == platform.get_outcome(reply),
    {
        if reply.error_code == 0 {
            Ok(Ok(narrow(reply.result)))
        } else if reply.error_code == platform.invalid_argument {
            Err(Fault::InvalidArgument)
        } else if reply.error_code == platform.no_such_process {
            Ok(Err(PriorityError::NotFound))
        } else {
            Err(Fault::UnexpectedErrno(reply.error_code))
        }
    }
}

impl SetPriority {
    /// The call with the given arguments, as they stand.
    pub fn new(which: i32, who: id_t, priority: i32) -> (call: SetPriority)
        ensures
            call == (SetPriority { which, who, priority }),
    {
        SetPriority { which, who, priority }
    }

    /// Sorts the call's end as [`SetPriority::complete`] does, reading the
    /// thread's error slot where the call failed. To be run immediately after
    /// the call returned, with `result` the integer that it returned.
    ///
    /// A returned 0 is success and the slot is not read. Otherwise the outcome
    /// is that of `complete` for the code that the slot held.
    pub fn finish(&self, result: i32, platform: &Platform) -> (outcome: Checked<()>)
        ensures
            result == 0 ==> outcome == Checked::<()>::Ok(Ok(())),
            exists|error_code: i32|
                outcome == #[trigger] platform.set_outcome(Reply { result, error_code }),
    {
        if result == 0 {
            assert(platform.set_outcome(Reply { result, error_code: 0 }) == Checked::<()>::Ok(
                Ok(()),
            ));
            Ok(Ok(()))
        } else {
            let reply = Reply { result, error_code: error_slot() };
            self.complete(reply, platform)
        }
    }

    /// Sorts the call's end by the kernel's reply.
    ///
    /// A returned 0 is success. Otherwise "no such process" is
    /// [`PriorityError::NotFound`], either code for "permission denied" is
    /// [`PriorityError::PermissionDenied`], and every other error code is a
    /// [`Fault`].
    pub fn complete(&self, reply: Reply, platform: &Platform) -> (outcome: Checked<()>)
        ensures
            outcome == platform.set_outcome(reply),
    {
        if reply.result == 0 {
            Ok(Ok(()))
        } else if reply.error_code == platform.invalid_argument {
            Err(Fault::InvalidArgument)
        } else if reply.error_code == platform.no_such_process {
            Ok(Err(PriorityError::NotFound))
        } else if reply.error_code == platform.access_denied || reply.error_code
            == platform.not_permitted {
            Ok(Err(PriorityError::PermissionDenied))
        } else {
            Err(Fault::UnexpectedErrno(reply.error_code))
        }
    }
}

} // verus!
