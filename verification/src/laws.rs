//! What holds of the accessor for every platform table and every reply.
//!
//! The kernel keeps the priorities, so what it answers is always a hypothesis
//! here: each law says how the calls of this crate fit together and how a
//! reply is read, given what the kernel answered.

use crate::background::Background;
use crate::background::BackgroundScope;
use crate::outcome::Checked;
use crate::outcome::Fault;
use crate::outcome::PriorityError;
use crate::outcome::Reply;
use crate::platform::id_t;
use crate::platform::Platform;
use crate::priority::WhichPriority;
use vstd::prelude::*;

verus! {

/// On a coherent platform the tag of a call identifies the kind of target:
/// two kinds with the same tag are the same kind.
pub proof fn lemma_tag_identifies_kind(platform: Platform, a: WhichPriority, b: WhichPriority)
    requires
        platform.coherent(),
        platform.tag_of(a) == platform.tag_of(b),
    ensures
        a == b,
{
}

/// Narrowing keeps the low eight bits: the narrowed value is the one niceness
/// value that differs from the wide one by a multiple of 256. A wide value
/// that is a niceness value already comes back unchanged.
pub proof fn lemma_narrowing(wide: i32)
    ensures
        (wide as i8) as int == (wide as int + 128) % 256 - 128,
        -128 <= wide <= 127 ==> (wide as i8) as int == wide as int,
{
    assert((wide as i8) == (wide + 128) % 256 - 128) by (bit_vector);
}

/// Setting a niceness and then reading it gives the value that was set.
///
/// For every kind of target, identifier and niceness: the call that `set`
/// prepares and the call that `get` prepares name the same target; and if the
/// kernel accepted the first and answers the second, without error, with the
/// integer that the first handed it, then the first completes with success and
/// the second with exactly the niceness that was set.
pub proof fn lemma_set_then_get_round_trip(
    platform: Platform,
    kind: WhichPriority,
    who: id_t,
    priority: i8,
    accepted: Reply,
    answer: Reply,
)
    requires
        accepted.result == 0,
        answer.error_code == 0,
        answer.result == kind.change(who, priority, platform).priority,
    ensures
        kind.query(who, platform).which == kind.change(who, priority, platform).which,
        kind.query(who, platform).who == kind.change(who, priority, platform).who,
        platform.set_outcome(accepted) == Checked::<()>::Ok(Ok(())),
        platform.get_outcome(answer) == Checked::<i8>::Ok(Ok(priority)),
{
}

/// A target that does not exist is `NotFound`, never a fault.
///
/// On a coherent platform, when the kernel reports "no such process", a
/// "get priority" call completes with `NotFound`, and so does a "set priority"
/// call that did not return 0.
pub proof fn lemma_missing_target_is_not_found(platform: Platform, reply: Reply)
    requires
        platform.coherent(),
        reply.error_code == platform.no_such_process,
    ensures
        platform.get_outcome(reply) == Checked::<i8>::Ok(Err(PriorityError::NotFound)),
        reply.result != 0 ==> platform.set_outcome(reply) == Checked::<()>::Ok(
            Err(PriorityError::NotFound),
        ),
{
}

/// A change that the kernel refuses for want of privilege is
/// `PermissionDenied`.
///
/// On a coherent platform, when a "set priority" call did not return 0 and
/// the kernel reports either of the two codes for "permission denied", the
/// call completes with `PermissionDenied`.
pub proof fn lemma_refused_change_is_permission_denied(platform: Platform, reply: Reply)
    requires
        platform.coherent(),
        reply.result != 0,
        reply.error_code == platform.access_denied || reply.error_code == platform.not_permitted,
    ensures
        platform.set_outcome(reply) == Checked::<()>::Ok(Err(PriorityError::PermissionDenied)),
{
}

/// The ways in which a "get priority" call ends, on a coherent platform:
/// with the narrowed value exactly when no error is reported, with `NotFound`
/// exactly on "no such process", and with a fault on every other error code,
/// which is `InvalidArgument` exactly on "invalid argument" and else carries
/// the code. It never ends with `PermissionDenied`, nor with the fault of an
/// unexpected state.
pub proof fn lemma_get_ends(platform: Platform, reply: Reply)
    requires
        platform.coherent(),
    ensures
        platform.get_outcome(reply) == Checked::<i8>::Ok(Ok(reply.result as i8))
            <==> reply.error_code == 0,
        platform.get_outcome(reply) == Checked::<i8>::Ok(Err(PriorityError::NotFound))
            <==> reply.error_code == platform.no_such_process,
        platform.get_outcome(reply) != Checked::<i8>::Ok(Err(PriorityError::PermissionDenied)),
        platform.get_outcome(reply) is Err <==> reply.error_code != 0 && reply.error_code
            != platform.no_such_process,
        platform.get_outcome(reply) == Checked::<i8>::Err(Fault::InvalidArgument)
            <==> reply.error_code == platform.invalid_argument,
        platform.get_outcome(reply) == Checked::<i8>::Err(
            Fault::UnexpectedErrno(reply.error_code),
        ) <==> reply.error_code != 0 && reply.error_code != platform.invalid_argument
            && reply.error_code != platform.no_such_process,
        platform.get_outcome(reply) matches Err(fault) ==> !(fault is UnexpectedPriority),
{
}

/// The ways in which a "set priority" call ends, on a coherent platform:
/// with success exactly when it returned 0; otherwise with `NotFound` exactly
/// on "no such process", with `PermissionDenied` exactly on the two codes for
/// it, and with a fault on every other error code, which is `InvalidArgument`
/// exactly on "invalid argument" and else carries the code.
pub proof fn lemma_set_ends(platform: Platform, reply: Reply)
    requires
        platform.coherent(),
    ensures
        platform.set_outcome(reply) == Checked::<()>::Ok(Ok(())) <==> reply.result == 0,
        platform.set_outcome(reply) == Checked::<()>::Ok(Err(PriorityError::NotFound))
            <==> reply.result != 0 && reply.error_code == platform.no_such_process,
        platform.set_outcome(reply) == Checked::<()>::Ok(Err(PriorityError::PermissionDenied))
            <==> reply.result != 0 && (reply.error_code == platform.access_denied
            || reply.error_code == platform.not_permitted),
        platform.set_outcome(reply) is Err <==> reply.result != 0 && reply.error_code
            != platform.no_such_process && reply.error_code != platform.access_denied
            && reply.error_code != platform.not_permitted,
        platform.set_outcome(reply) == Checked::<()>::Err(Fault::InvalidArgument)
            <==> reply.result != 0 && reply.error_code == platform.invalid_argument,
        platform.set_outcome(reply) == Checked::<()>::Err(
            Fault::UnexpectedErrno(reply.error_code),
        ) <==> reply.result != 0 && reply.error_code != platform.invalid_argument
            && reply.error_code != platform.no_such_process && reply.error_code
            != platform.access_denied && reply.error_code != platform.not_permitted,
{
}

/// A query for the background state ends as the "get priority" call that it is,
/// but for the state: an error or a fault of the call passes through
/// unchanged, a value 0 or 1 becomes `false` or `true`, and any other value
/// becomes a fault that carries it.
pub proof fn lemma_background_query_ends(platform: Platform, reply: Reply)
    ensures
        platform.get_outcome(reply) matches Ok(Err(error))
            ==> platform.background_outcome(reply) == Checked::<bool>::Ok(Err(error)),
        platform.get_outcome(reply) matches Err(fault) ==> platform.background_outcome(reply)
            == Checked::<bool>::Err(fault),
        platform.background_outcome(reply) == Checked::<bool>::Ok(Ok(false))
            <==> platform.get_outcome(reply) == Checked::<i8>::Ok(Ok(0i8)),
        platform.background_outcome(reply) == Checked::<bool>::Ok(Ok(true))
            <==> platform.get_outcome(reply) == Checked::<i8>::Ok(Ok(1i8)),
        platform.get_outcome(reply) matches Ok(Ok(state)) ==> (state != 0 && state != 1
            <==> platform.background_outcome(reply) == Checked::<bool>::Err(
            Fault::UnexpectedPriority(state),
        )),
{
}

/// Entering the background, leaving it and asking for it fit together, scope
/// by scope.
///
/// Within one scope the three calls name the same target, the caller itself.
/// Entering hands the kernel the background value and leaving hands it 0, and
/// on a coherent table these differ. When the kernel then reports state 1
/// without error the query completes with `true`, and with `false` when it
/// reports state 0.
pub proof fn lemma_background_toggle(
    background: Background,
    platform: Platform,
    scope: BackgroundScope,
    reply: Reply,
)
    requires
        background.coherent(),
        reply.error_code == 0,
    ensures
        background.enter(scope).which == background.ask(scope).call.which,
        background.leave(scope).which == background.ask(scope).call.which,
        background.enter(scope).who == WhichPriority::CurrentProcessOrThread,
        background.leave(scope).who == WhichPriority::CurrentProcessOrThread,
        background.ask(scope).call.who == WhichPriority::CurrentProcessOrThread,
        background.enter(scope).priority == background.sentinel,
        background.leave(scope).priority == 0,
        background.enter(scope).priority != background.leave(scope).priority,
        reply.result == 1 ==> platform.background_outcome(reply) == Checked::<bool>::Ok(Ok(true)),
        reply.result == 0 ==> platform.background_outcome(reply) == Checked::<bool>::Ok(
            Ok(false),
        ),
{
}

/// The two scopes of the background mode do not touch each other: on a
/// coherent table no call for one scope names the target of the other.
pub proof fn lemma_background_scopes_are_independent(
    background: Background,
    scope: BackgroundScope,
    other: BackgroundScope,
)
    requires
        background.coherent(),
        scope != other,
    ensures
        background.enter(scope).which != background.ask(other).call.which,
        background.leave(scope).which != background.ask(other).call.which,
        background.enter(scope).which != background.enter(other).which,
        background.leave(scope).which != background.leave(other).which,
        background.ask(scope).call.which != background.ask(other).call.which,
{
}

} // verus!
