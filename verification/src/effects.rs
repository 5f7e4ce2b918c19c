//! What the operations of the manager do, as relations.
//!
//! Each relation takes the stack and the context before and after an
//! operation, the result of the operation, and a log: the calls of hooks that
//! the operation made, oldest first. It holds where the operation can lead
//! from the one to the other by those calls. The contract of each operation
//! of [`StateManager`](crate::state_manager::StateManager) says that there is
//! a log for which its relation holds. A stack is written bottom first.
use vstd::prelude::*;

use crate::error::StackError;
use crate::hooks::HookCall;
use crate::hooks::HookOutcome;
use crate::hooks::Hooks;
use crate::state_manager::Transition;

verus! {

/// `log` is what pushing `state` onto `before` does: one call of its enter
/// hook, and the state on top exactly if the hook succeeded.
pub open spec fn pushes<Ctx, S: Hooks<Ctx>>(
    log: Seq<HookCall<Ctx, S>>,
    before: Seq<S>,
    after: Seq<S>,
    state: S,
    ctx_before: Ctx,
    ctx_after: Ctx,
    result: Result<(), anyhow::Error>,
) -> bool {
    &&& log.len() == 1
    &&& log[0].genuine()
    &&& log[0].before == state
    &&& log[0].ctx_before == ctx_before
    &&& log[0].ctx_after == ctx_after
    &&& log[0].outcome == HookOutcome::<S>::Entered(result)
    &&& after == if result is Ok { before.push(log[0].after) } else { before }
}

/// `log` is what removing the top `count` states of `before` does: a call
/// of the leave hook of each state removed, topmost first, up to the first
/// that fails. Only the last call of the log can have failed, and `result` is
/// what it returned.
pub open spec fn pops<Ctx, S: Hooks<Ctx>>(
    log: Seq<HookCall<Ctx, S>>,
    before: Seq<S>,
    after: Seq<S>,
    count: usize,
    ctx_before: Ctx,
    ctx_after: Ctx,
    result: Result<(), anyhow::Error>,
) -> bool {
    &&& log.len() <= count <= before.len()
    &&& crate::hooks::faithful(log, ctx_before, ctx_after)
    &&& forall|i: int|
        0 <= i < log.len() ==> {
            &&& (#[trigger] log[i]).before == before[before.len() - 1 - i]
            &&& log[i].outcome matches HookOutcome::Left(left)
            &&& if result is Err && i == log.len() - 1 {
                left == result
            } else {
                left is Ok
            }
        }
    &&& after == before.take(before.len() - log.len())
    &&& if result is Ok {
        log.len() == count
    } else {
        log.len() > 0
    }
}

/// `log` is what applying `transition` to `before` does.
///
/// A transition that removes more states than `before` holds does nothing:
/// no hook runs, the stack and the context stay as they were, and the result
/// is the underflow. Otherwise `Stay` does nothing and succeeds, `Push` and
/// `Pop` are [`pushes`] and [`pops`], and `Replace` is [`replaces`].
pub open spec fn applies<Ctx, S: Hooks<Ctx>>(
    log: Seq<HookCall<Ctx, S>>,
    before: Seq<S>,
    after: Seq<S>,
    transition: Transition<S>,
    ctx_before: Ctx,
    ctx_after: Ctx,
    result: Result<(), StackError>,
) -> bool {
    if transition.pop_count() > before.len() {
        &&& log.len() == 0
        &&& after == before
        &&& ctx_after == ctx_before
        &&& result == Err::<(), StackError>(
            StackError::Underflow {
                requested: transition.pop_count() as usize,
                depth: before.len() as usize,
            },
        )
    } else {
        match transition {
            Transition::Stay => {
                &&& log.len() == 0
                &&& after == before
                &&& ctx_after == ctx_before
                &&& result is Ok
            },
            Transition::Push(state) => exists|hook: Result<(), anyhow::Error>|
                {
                    &&& #[trigger] pushes(log, before, after, state, ctx_before, ctx_after, hook)
                    &&& StackError::carries(result, hook)
                },
            Transition::Pop(count) => exists|hook: Result<(), anyhow::Error>|
                {
                    &&& #[trigger] pops(log, before, after, count, ctx_before, ctx_after, hook)
                    &&& StackError::carries(result, hook)
                },
            Transition::Replace(count, state) => exists|
                pop_log: Seq<HookCall<Ctx, S>>,
                push_log: Seq<HookCall<Ctx, S>>,
                mid: Seq<S>,
                ctx_mid: Ctx,
                left: Result<(), anyhow::Error>,
            |
                {
                    &&& log == pop_log + push_log
                    &&& #[trigger] replaces(
                        pop_log,
                        push_log,
                        mid,
                        ctx_mid,
                        left,
                        before,
                        after,
                        count,
                        state,
                        ctx_before,
                        ctx_after,
                        result,
                    )
                },
        }
    }
}

/// Replacing the top `count` states of `before` by `state` is removing them
/// and then, if every leave hook succeeded, pushing `state`: `pop_log` is the
/// removal, which leaves the stack as `mid` and the context as `ctx_mid` and
/// returns `left`, and `push_log` is the push. If a leave hook failed,
/// nothing is pushed and its error is the result.
pub open spec fn replaces<Ctx, S: Hooks<Ctx>>(
    pop_log: Seq<HookCall<Ctx, S>>,
    push_log: Seq<HookCall<Ctx, S>>,
    mid: Seq<S>,
    ctx_mid: Ctx,
    left: Result<(), anyhow::Error>,
    before: Seq<S>,
    after: Seq<S>,
    count: usize,
    state: S,
    ctx_before: Ctx,
    ctx_after: Ctx,
    result: Result<(), StackError>,
) -> bool {
    &&& pops(pop_log, before, mid, count, ctx_before, ctx_mid, left)
    &&& if left is Err {
        &&& push_log.len() == 0
        &&& after == mid
        &&& ctx_after == ctx_mid
        &&& StackError::carries(result, left)
    } else {
        exists|entered: Result<(), anyhow::Error>|
            {
                &&& #[trigger] pushes(push_log, mid, after, state, ctx_mid, ctx_after, entered)
                &&& StackError::carries(result, entered)
            }
    }
}

/// `log` is what one update pass over `before` does: a call of the update
/// hook of each state, bottom first, each with the number of states above it,
/// up to the first that fails. The pass leaves the states as `after`.
/// `pending` is what the pass hands on: the failure that ended it, or else
/// the transition that the topmost state returned, or `Stay` where there is
/// no state at all. What the states beneath the topmost returned has no part
/// in it.
pub open spec fn visits<Ctx, S: Hooks<Ctx>>(
    log: Seq<HookCall<Ctx, S>>,
    before: Seq<S>,
    after: Seq<S>,
    ctx_before: Ctx,
    ctx_after: Ctx,
    pending: Result<Transition<S>, anyhow::Error>,
) -> bool {
    &&& log.len() <= before.len() == after.len()
    &&& crate::hooks::faithful(log, ctx_before, ctx_after)
    &&& forall|i: int|
        0 <= i < log.len() ==> {
            &&& (#[trigger] log[i]).before == before[i]
            &&& log[i].after == after[i]
            &&& log[i].outcome matches HookOutcome::Updated(depth, returned)
            &&& depth == before.len() - 1 - i
            &&& if i == log.len() - 1 {
                returned == pending
            } else {
                returned is Ok
            }
        }
    &&& forall|i: int| log.len() <= i < before.len() ==> after[i] == before[i]
    &&& if pending is Ok {
        log.len() == before.len()
    } else {
        log.len() > 0
    }
    &&& log.len() == 0 ==> pending == Ok::<Transition<S>, anyhow::Error>(Transition::Stay)
}

/// `log` is what one frame on `before` does: an update pass, and then, if no
/// hook failed in it, the transition that it handed on, applied.
pub open spec fn frames<Ctx, S: Hooks<Ctx>>(
    log: Seq<HookCall<Ctx, S>>,
    before: Seq<S>,
    after: Seq<S>,
    ctx_before: Ctx,
    ctx_after: Ctx,
    result: Result<bool, StackError>,
) -> bool {
    exists|
        pass_log: Seq<HookCall<Ctx, S>>,
        rest_log: Seq<HookCall<Ctx, S>>,
        mid: Seq<S>,
        ctx_mid: Ctx,
        pending: Result<Transition<S>, anyhow::Error>,
    |
        {
            &&& log == pass_log + rest_log
            &&& #[trigger] ends(
                pass_log,
                rest_log,
                mid,
                ctx_mid,
                pending,
                before,
                after,
                ctx_before,
                ctx_after,
                result,
            )
        }
}

/// A frame in its two parts. `pass_log` is the update pass, which leaves the
/// stack as `mid` and the context as `ctx_mid` and hands on `pending`. If
/// that is a failure the frame ends there, with that error. Otherwise
/// `rest_log` is the transition applied, and the frame returns what applying
/// it returned: its error, or else whether the stack still holds a state.
pub open spec fn ends<Ctx, S: Hooks<Ctx>>(
    pass_log: Seq<HookCall<Ctx, S>>,
    rest_log: Seq<HookCall<Ctx, S>>,
    mid: Seq<S>,
    ctx_mid: Ctx,
    pending: Result<Transition<S>, anyhow::Error>,
    before: Seq<S>,
    after: Seq<S>,
    ctx_before: Ctx,
    ctx_after: Ctx,
    result: Result<bool, StackError>,
) -> bool {
    &&& visits(pass_log, before, mid, ctx_before, ctx_mid, pending)
    &&& match pending {
        Err(e) => {
            &&& rest_log.len() == 0
            &&& after == mid
            &&& ctx_after == ctx_mid
            &&& result == Err::<bool, StackError>(StackError::Hook(e))
        },
        Ok(transition) => exists|applied: Result<(), StackError>|
            {
                &&& #[trigger] applies(
                    rest_log,
                    mid,
                    after,
                    transition,
                    ctx_mid,
                    ctx_after,
                    applied,
                )
                &&& result == match applied {
                    Ok(_) => Ok::<bool, StackError>(after.len() > 0),
                    Err(e) => Err::<bool, StackError>(e),
                }
            },
    }
}

} // verus!
