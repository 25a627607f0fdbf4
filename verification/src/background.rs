//! Background mode of the calling process or thread, on platforms that have a
//! background priority class.
//!
//! Such a platform reserves two tags, one for the calling process and one for
//! the calling thread, and one niceness value that means "in the background".
//! Reading the priority of either target then gives 1 in the background and 0
//! out of it.

use crate::outcome::Checked;
use crate::outcome::Fault;
use crate::outcome::Reply;
use crate::platform::Platform;
use crate::priority::GetPriority;
use crate::priority::SetPriority;
use crate::priority::WhichPriority;
use vstd::prelude::*;

verus! {

/// What is moved into or out of the background.
#[derive(Debug, Clone, Copy, PartialEq, Eq, Structural)]
pub enum BackgroundScope {
    /// The calling process.
    Process,
    /// The calling thread.
    Thread,
}

/// The numbers of a platform's background priority class.
#[derive(Debug, Clone, Copy, PartialEq, Eq, Structural)]
pub struct Background {
    /// Tag of [`BackgroundScope::Process`].
    pub process: i32,
    /// Tag of [`BackgroundScope::Thread`].
    pub thread: i32,
    /// The niceness value that puts a target into the background.
    pub sentinel: i32,
}

/// A "get priority" call that asks whether its target is in the background.
#[derive(Debug, Clone, Copy, PartialEq, Eq, Structural)]
pub struct BackgroundQuery {
    /// The call to make.
    pub call: GetPriority,
}

/// What a completed "get priority" call says of the background state: 0 is
/// "not in the background", 1 is "in the background", any other value is a
/// fault. An error or a fault of the call itself stays what it is.
pub open spec fn background_state(read: Checked<i8>) -> Checked<bool> {
    match read {
        Ok(Ok(state)) => if state == 0 {
            Ok(Ok(false))
        } else if state == 1 {
            Ok(Ok(true))
        } else {
            Err(Fault::UnexpectedPriority(state))
        },
        Ok(Err(error)) => Ok(Err(error)),
        Err(fault) => Err(fault),
    }
}

impl Platform {
    /// How a query for the background state ends, given the kernel's reply: as
    /// the "get priority" call that it is, read as a background state.
    pub open spec fn background_outcome(self, reply: Reply) -> Checked<bool> {
        background_state(self.get_outcome(reply))
    }
}

impl Background {
    /// A table is coherent when the two scopes have different tags and the
    /// background value differs from 0, the value that leaves the background.
    pub open spec fn coherent(self) -> bool {
        &&& self.process != self.thread
        &&& self.sentinel != 0
    }

    /// The tag that stands for `scope` in a call.
    pub open spec fn tag_of(self, scope: BackgroundScope) -> i32 {
        match scope {
            BackgroundScope::Process => self.process,
            BackgroundScope::Thread => self.thread,
        }
    }

    /// The call that puts the caller, in the given scope, into the background.
    pub open spec fn enter(self, scope: BackgroundScope) -> SetPriority {
        SetPriority {
            which: self.tag_of(scope),
            who: WhichPriority::CurrentProcessOrThread,
            priority: self.sentinel,
        }
    }

    /// The call that takes the caller, in the given scope, out of the
    /// background.
    pub open spec fn leave(self, scope: BackgroundScope) -> SetPriority {
        SetPriority {
            which: self.tag_of(scope),
            who: WhichPriority::CurrentProcessOrThread,
            priority: 0,
        }
    }

    /// The call that asks whether the caller, in the given scope, is in the
    /// background.
    pub open spec fn ask(self, scope: BackgroundScope) -> BackgroundQuery {
        BackgroundQuery {
            call: GetPriority {
                which: self.tag_of(scope),
                who: WhichPriority::CurrentProcessOrThread,
            },
        }
    }

    /// Tests whether the table is coherent.
    pub fn is_coherent(&self) -> (ok: bool)
        ensures
            ok == self.coherent(),
    {
        self.process != self.thread && self.sentinel != 0
    }

    /// The platform's tag for `scope`.
    pub fn tag(&self, scope: BackgroundScope) -> (tag: i32)
        ensures
            tag == self.tag_of(scope),
    {
        match scope {
            BackgroundScope::Process => self.process,
            BackgroundScope::Thread => self.thread,
        }
    }
}

impl BackgroundQuery {
    /// Reads a completed "get priority" call as a background state.
    pub fn state(read: Checked<i8>) -> (outcome: Checked<bool>)
        ensures
            outcome == background_state(read),
    {
        match read {
            Ok(Ok(0)) => Ok(Ok(false)),
            Ok(Ok(1)) => Ok(Ok(true)),
            Ok(Ok(unexpected)) => Err(Fault::UnexpectedPriority(unexpected)),
            Ok(Err(error)) => Ok(Err(error)),
            Err(fault) => Err(fault),
        }
    }

    /// Clears the thread's error slot, as [`GetPriority::prepare`] does. To be
    /// run immediately before the call is made.
    pub fn prepare(&self) {
        self.call.prepare()
    }

    /// Reads the thread's error slot and sorts the query's end by it, as
    /// [`BackgroundQuery::complete`] does. To be run immediately after the call
    /// returned, with `result` the integer that it returned.
    ///
    /// The outcome is that of `complete` for the code that the slot held.
    pub fn finish(&self, result: i32, platform: &Platform) -> (outcome: Checked<bool>)
        ensures
            exists|error_code: i32|
                outcome == #[trigger] platform.background_outcome(Reply { result, error_code }),
    {
        let read = self.call.finish(result, platform);
        proof {
            let error_code: i32 = choose|error_code: i32|
                read == #[trigger] platform.get_outcome(Reply { result, error_code });
            assert(background_state(read) == platform.background_outcome(
                Reply { result, error_code },
            ));
        }
        BackgroundQuery::state(read)
    }

    /// Sorts the query's end by the kernel's reply: `true` in the background,
    /// `false` out of it. Errors and faults are those of
    /// [`GetPriority::complete`]; a state other than 0 and 1 is a fault too.
    pub fn complete(&self, reply: Reply, platform: &Platform) -> (outcome: Checked<bool>)
        ensures
            outcome == platform.background_outcome(reply),
    {
        BackgroundQuery::state(self.call.complete(reply, platform))
    }
}

fn put_current_x_into_background(
    scope: BackgroundScope,
    background: &Background,
) -> (call: SetPriority)
    ensures
        call == background.enter(scope),
{
    SetPriority::new(
        background.tag(scope),
        WhichPriority::CurrentProcessOrThread,
        background.sentinel,
    )
}

fn get_current_x_out_of_background(
    scope: BackgroundScope,
    background: &Background,
) -> (call: SetPriority)
    ensures
        call == background.leave(scope),
{
    SetPriority::new(background.tag(scope), WhichPriority::CurrentProcessOrThread, 0)
}

fn is_current_x_in_background(
    scope: BackgroundScope,
    background: &Background,
) -> (query: BackgroundQuery)
    ensures
        query == background.ask(scope),
{
    BackgroundQuery {
        call: GetPriority::new(background.tag(scope), WhichPriority::CurrentProcessOrThread),
    }
}

/// Prepares the call that puts the calling process into the background.
pub fn put_current_process_into_background(background: &Background) -> (call: SetPriority)
    ensures
        call == background.enter(BackgroundScope::Process),
{
    put_current_x_into_background(BackgroundScope::Process, background)
}

/// Prepares the call that puts the calling thread into the background.
pub fn put_current_thread_into_background(background: &Background) -> (call: SetPriority)
    ensures
        call == background.enter(BackgroundScope::Thread),
{
    put_current_x_into_background(BackgroundScope::Thread, background)
}

/// Prepares the call that takes the calling process out of the background.
pub fn get_current_process_out_of_background(background: &Background) -> (call: SetPriority)
    ensures
        call == background.leave(BackgroundScope::Process),
{
    get_current_x_out_of_background(BackgroundScope::Process, background)
}

/// Prepares the call that takes the calling thread out of the background.
pub fn get_current_thread_out_of_background(background: &Background) -> (call: SetPriority)
    ensures
        call == background.leave(BackgroundScope::Thread),
{
    get_current_x_out_of_background(BackgroundScope::Thread, background)
}

/// Prepares the query whether the calling process is in the background.
pub fn is_current_process_in_background(background: &Background) -> (query: BackgroundQuery)
    ensures
        query == background.ask(BackgroundScope::Process),
{
    is_current_x_in_background(BackgroundScope::Process, background)
}

/// Prepares the query whether the calling thread is in the background.
pub fn is_current_thread_in_background(background: &Background) -> (query: BackgroundQuery)
    ensures
        query == background.ask(BackgroundScope::Thread),
{
    is_current_x_in_background(BackgroundScope::Thread, background)
}

} // verus!
