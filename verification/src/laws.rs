//! What holds of the manager whatever the states do.
//!
//! Each law is a proof about the relations that the contracts of
//! [`StateManager`](crate::state_manager::StateManager) are stated in.
use vstd::prelude::*;

use crate::error::StackError;
use crate::hooks::Hook;
use crate::hooks::HookCall;
use crate::hooks::HookOutcome;
use crate::hooks::Hooks;
use crate::state_manager::Transition;

verus! {

/// A call of `push_state` or of `pop_states`.
pub enum StackOp<S> {
    /// `push_state` with this state.
    Push(S),
    /// `pop_states` with this count.
    Pop(usize),
}

/// One call that succeeded, with what it did: the hook calls it made, and
/// the stack and the context as it left them.
pub struct Step<Ctx, S> {
    pub op: StackOp<S>,
    pub log: Seq<HookCall<Ctx, S>>,
    pub after: Seq<S>,
    pub ctx_after: Ctx,
}

/// How many of `steps` are pushes.
pub open spec fn pushed<Ctx, S>(steps: Seq<Step<Ctx, S>>) -> nat
    decreases steps.len(),
{
    if steps.len() == 0 {
        0
    } else {
        pushed(steps.drop_last()) + match steps.last().op {
            StackOp::Push(_) => 1nat,
            StackOp::Pop(_) => 0nat,
        }
    }
}

/// How many states the pops among `steps` ask to remove, all told.
pub open spec fn popped<Ctx, S>(steps: Seq<Step<Ctx, S>>) -> nat
    decreases steps.len(),
{
    if steps.len() == 0 {
        0
    } else {
        popped(steps.drop_last()) + match steps.last().op {
            StackOp::Push(_) => 0nat,
            StackOp::Pop(count) => count as nat,
        }
    }
}

/// The hook calls of all of `steps`, in order.
pub open spec fn whole_log<Ctx, S>(steps: Seq<Step<Ctx, S>>) -> Seq<HookCall<Ctx, S>>
    decreases steps.len(),
{
    if steps.len() == 0 {
        Seq::empty()
    } else {
        whole_log(steps.drop_last()) + steps.last().log
    }
}

/// The stack after `steps`, which began on `before`.
pub open spec fn stack_after<Ctx, S>(steps: Seq<Step<Ctx, S>>, before: Seq<S>) -> Seq<S> {
    if steps.len() == 0 {
        before
    } else {
        steps.last().after
    }
}

/// The context after `steps`, which began with `ctx_before`.
pub open spec fn ctx_after<Ctx, S>(steps: Seq<Step<Ctx, S>>, ctx_before: Ctx) -> Ctx {
    if steps.len() == 0 {
        ctx_before
    } else {
        steps.last().ctx_after
    }
}

/// `steps` is a run of calls of `push_state` and `pop_states` from the stack
/// `before` and the context `ctx_before`: each call starts where the one
/// before it ended, no pop asks for more states than the stack then holds,
/// and every call succeeds.
pub open spec fn runs<Ctx, S: Hooks<Ctx>>(
    steps: Seq<Step<Ctx, S>>,
    before: Seq<S>,
    ctx_before: Ctx,
) -> bool
    decreases steps.len(),
{
    steps.len() > 0 ==> {
        let earlier = steps.drop_last();
        let last = steps.last();
        let mid = stack_after(earlier, before);
        let ctx_mid = ctx_after(earlier, ctx_before);
        &&& runs(earlier, before, ctx_before)
        &&& match last.op {
            StackOp::Push(state) => crate::effects::pushes(
                last.log,
                mid,
                last.after,
                state,
                ctx_mid,
                last.ctx_after,
                Ok(()),
            ),
            StackOp::Pop(count) => crate::effects::pops(
                last.log,
                mid,
                last.after,
                count,
                ctx_mid,
                last.ctx_after,
                Ok(()),
            ),
        }
    }
}

/// After any run of pushes and pops that all succeed, the stack is deeper by
/// the number of pushes and shallower by the number of states popped. The
/// enter hook has run once for each push, the leave hook once for each state
/// popped, and no other hook has run.
pub proof fn law_depth_and_hook_calls<Ctx, S: Hooks<Ctx>>(
    steps: Seq<Step<Ctx, S>>,
    before: Seq<S>,
    ctx_before: Ctx,
)
    requires
        runs(steps, before, ctx_before),
    ensures
        popped(steps) <= before.len() + pushed(steps),
        stack_after(steps, before).len() == before.len() + pushed(steps) - popped(steps),
        crate::hooks::calls(whole_log(steps), Hook::Enter) == pushed(steps),
        crate::hooks::calls(whole_log(steps), Hook::Leave) == popped(steps),
        crate::hooks::calls(whole_log(steps), Hook::Update) == 0,
    decreases steps.len(),
{
    if steps.len() > 0 {
        let earlier = steps.drop_last();
        let head = whole_log(earlier);
        let tail = steps.last().log;
        law_depth_and_hook_calls(earlier, before, ctx_before);
        crate::hooks::lemma_calls_of_both(head, tail, Hook::Enter);
        crate::hooks::lemma_calls_of_both(head, tail, Hook::Leave);
        crate::hooks::lemma_calls_of_both(head, tail, Hook::Update);
        match steps.last().op {
            StackOp::Push(state) => {
                crate::hooks::lemma_calls_of_one_hook(tail, Hook::Enter, Hook::Enter);
                crate::hooks::lemma_calls_of_one_hook(tail, Hook::Enter, Hook::Leave);
                crate::hooks::lemma_calls_of_one_hook(tail, Hook::Enter, Hook::Update);
            },
            StackOp::Pop(count) => {
                crate::hooks::lemma_calls_of_one_hook(tail, Hook::Leave, Hook::Enter);
                crate::hooks::lemma_calls_of_one_hook(tail, Hook::Leave, Hook::Leave);
                crate::hooks::lemma_calls_of_one_hook(tail, Hook::Leave, Hook::Update);
            },
        }
    }
}

/// `log` is what applying `Pop(count)` and then, if that succeeded,
/// `Push(state)` does: two transitions, one after the other.
pub open spec fn pops_then_pushes<Ctx, S: Hooks<Ctx>>(
    log: Seq<HookCall<Ctx, S>>,
    before: Seq<S>,
    after: Seq<S>,
    count: usize,
    state: S,
    ctx_before: Ctx,
    ctx_after: Ctx,
    result: Result<(), StackError>,
) -> bool {
    exists|
        pop_log: Seq<HookCall<Ctx, S>>,
        push_log: Seq<HookCall<Ctx, S>>,
        mid: Seq<S>,
        ctx_mid: Ctx,
        popped: Result<(), StackError>,
    |
        {
            &&& log == pop_log + push_log
            &&& #[trigger] in_turn(
                pop_log,
                push_log,
                mid,
                ctx_mid,
                popped,
                before,
                after,
                count,
                state,
                ctx_before,
                ctx_after,
                result,
            )
        }
}

/// `Pop(count)` and then `Push(state)`, each applied as a transition of its
/// own: `pop_log` is the first, which leaves the stack as `mid` and the
/// context as `ctx_mid` and returns `popped`; `push_log` is the second, which
/// is applied only if the first succeeded.
pub open spec fn in_turn<Ctx, S: Hooks<Ctx>>(
    pop_log: Seq<HookCall<Ctx, S>>,
    push_log: Seq<HookCall<Ctx, S>>,
    mid: Seq<S>,
    ctx_mid: Ctx,
    popped: Result<(), StackError>,
    before: Seq<S>,
    after: Seq<S>,
    count: usize,
    state: S,
    ctx_before: Ctx,
    ctx_after: Ctx,
    result: Result<(), StackError>,
) -> bool {
    &&& crate::effects::applies(
        pop_log,
        before,
        mid,
        Transition::Pop(count),
        ctx_before,
        ctx_mid,
        popped,
    )
    &&& if popped is Err {
        &&& push_log.len() == 0
        &&& after == mid
        &&& ctx_after == ctx_mid
        &&& result == popped
    } else {
        crate::effects::applies(
            push_log,
            mid,
            after,
            Transition::Push(state),
            ctx_mid,
            ctx_after,
            result,
        )
    }
}

/// On a stack that holds at least `count` states, `Replace(count, state)`
/// does what `Pop(count)` followed by `Push(state)` does: the same hook
/// calls in the same order, the same stack and context afterwards, the same
/// result.
pub proof fn law_replace_is_pop_then_push<Ctx, S: Hooks<Ctx>>(
    log: Seq<HookCall<Ctx, S>>,
    before: Seq<S>,
    after: Seq<S>,
    count: usize,
    state: S,
    ctx_before: Ctx,
    ctx_after: Ctx,
    result: Result<(), StackError>,
)
    requires
        count <= before.len(),
    ensures
        crate::effects::applies(
            log,
            before,
            after,
            Transition::Replace(count, state),
            ctx_before,
            ctx_after,
            result,
        ) <==> pops_then_pushes(log, before, after, count, state, ctx_before, ctx_after, result),
{
    let replace = Transition::Replace(count, state);
    if crate::effects::applies(log, before, after, replace, ctx_before, ctx_after, result) {
        let (pop_log, push_log, mid, ctx_mid, left) = choose|
            pop_log: Seq<HookCall<Ctx, S>>,
            push_log: Seq<HookCall<Ctx, S>>,
            mid: Seq<S>,
            ctx_mid: Ctx,
            left: Result<(), anyhow::Error>,
        |
            {
                &&& log == pop_log + push_log
                &&& #[trigger] crate::effects::replaces(
                    pop_log,
                    push_log,
                    mid,
                    ctx_mid,
                    left,
                    before,
                    after,
                    count,
                    state,
                    ctx_before,
                    ctx_after,
                    result,
                )
            };
        let popped = match left {
            Ok(_) => Ok::<(), StackError>(()),
            Err(e) => Err::<(), StackError>(StackError::Hook(e)),
        };
        let pop = Transition::<S>::Pop(count);
        let push = Transition::Push(state);
        assert(crate::effects::pops(
            pop_log,
            before,
            mid,
            pop->Pop_0,
            ctx_before,
            ctx_mid,
            left,
        ));
        assert(crate::effects::applies(
            pop_log,
            before,
            mid,
            Transition::Pop(count),
            ctx_before,
            ctx_mid,
            popped,
        ));
        if left is Ok {
            let entered = choose|entered: Result<(), anyhow::Error>|
                {
                    &&& #[trigger] crate::effects::pushes(
                        push_log,
                        mid,
                        after,
                        state,
                        ctx_mid,
                        ctx_after,
                        entered,
                    )
                    &&& StackError::carries(result, entered)
                };
            assert(crate::effects::pushes(
                push_log,
                mid,
                after,
                push->Push_0,
                ctx_mid,
                ctx_after,
                entered,
            ));
            assert(crate::effects::applies(
                push_log,
                mid,
                after,
                Transition::Push(state),
                ctx_mid,
                ctx_after,
                result,
            ));
        }
        assert(in_turn(
            pop_log,
            push_log,
            mid,
            ctx_mid,
            popped,
            before,
            after,
            count,
            state,
            ctx_before,
            ctx_after,
            result,
        ));
    }
    if pops_then_pushes(log, before, after, count, state, ctx_before, ctx_after, result) {
        let (pop_log, push_log, mid, ctx_mid, popped) = choose|
            pop_log: Seq<HookCall<Ctx, S>>,
            push_log: Seq<HookCall<Ctx, S>>,
            mid: Seq<S>,
            ctx_mid: Ctx,
            popped: Result<(), StackError>,
        |
            {
                &&& log == pop_log + push_log
                &&& #[trigger] in_turn(
                    pop_log,
                    push_log,
                    mid,
                    ctx_mid,
                    popped,
                    before,
                    after,
                    count,
                    state,
                    ctx_before,
                    ctx_after,
                    result,
                )
            };
        let left = choose|left: Result<(), anyhow::Error>|
            {
                &&& #[trigger] crate::effects::pops(
                    pop_log,
                    before,
                    mid,
                    count,
                    ctx_before,
                    ctx_mid,
                    left,
                )
                &&& StackError::carries(popped, left)
            };
        assert(crate::effects::replaces(
            pop_log,
            push_log,
            mid,
            ctx_mid,
            left,
            before,
            after,
            replace->Replace_0,
            replace->Replace_1,
            ctx_before,
            ctx_after,
            result,
        ));
    }
}

/// An update pass in which no hook fails calls the update hook of every
/// state exactly once, bottom first, each with the number of states above
/// it, and calls no other hook. It hands on what the topmost state returned.
pub proof fn law_pass_updates_each_state_once<Ctx, S: Hooks<Ctx>>(
    log: Seq<HookCall<Ctx, S>>,
    before: Seq<S>,
    after: Seq<S>,
    ctx_before: Ctx,
    ctx_after: Ctx,
    pending: Transition<S>,
)
    requires
        crate::effects::visits(log, before, after, ctx_before, ctx_after, Ok(pending)),
    ensures
        log.len() == before.len(),
        crate::hooks::calls(log, Hook::Update) == before.len(),
        crate::hooks::calls(log, Hook::Enter) == 0,
        crate::hooks::calls(log, Hook::Leave) == 0,
        forall|i: int|
            0 <= i < before.len() ==> {
                &&& (#[trigger] log[i]).before == before[i]
                &&& log[i].after == after[i]
                &&& log[i].outcome matches HookOutcome::Updated(depth, _)
                &&& depth == before.len() - 1 - i
            },
        before.len() > 0 ==> log.last().outcome == HookOutcome::Updated(
            0,
            Ok::<Transition<S>, anyhow::Error>(pending),
        ),
        before.len() == 0 ==> pending == Transition::<S>::Stay,
{
    crate::hooks::lemma_calls_of_one_hook(log, Hook::Update, Hook::Update);
    crate::hooks::lemma_calls_of_one_hook(log, Hook::Update, Hook::Enter);
    crate::hooks::lemma_calls_of_one_hook(log, Hook::Update, Hook::Leave);
}

/// Only the topmost state's transition counts: two passes whose topmost
/// states return the same transition hand on that transition, whatever the
/// states beneath them return.
pub proof fn law_topmost_transition_wins<Ctx, S: Hooks<Ctx>>(
    log: Seq<HookCall<Ctx, S>>,
    before: Seq<S>,
    after: Seq<S>,
    ctx_before: Ctx,
    ctx_after: Ctx,
    pending: Transition<S>,
    other_log: Seq<HookCall<Ctx, S>>,
    other_before: Seq<S>,
    other_after: Seq<S>,
    other_ctx_before: Ctx,
    other_ctx_after: Ctx,
    other_pending: Transition<S>,
)
    requires
        crate::effects::visits(log, before, after, ctx_before, ctx_after, Ok(pending)),
        crate::effects::visits(
            other_log,
            other_before,
            other_after,
            other_ctx_before,
            other_ctx_after,
            Ok(other_pending),
        ),
        before.len() > 0,
        other_before.len() > 0,
        log.last().outcome == other_log.last().outcome,
    ensures
        pending == other_pending,
{
}

/// A transition that asks to remove more states than the stack holds is
/// refused and changes nothing: no hook runs, and the stack and the context
/// stay as they were. Nothing else is refused so.
pub proof fn law_underflow_changes_nothing<Ctx, S: Hooks<Ctx>>(
    log: Seq<HookCall<Ctx, S>>,
    before: Seq<S>,
    after: Seq<S>,
    transition: Transition<S>,
    ctx_before: Ctx,
    ctx_after: Ctx,
    result: Result<(), StackError>,
)
    requires
        crate::effects::applies(log, before, after, transition, ctx_before, ctx_after, result),
    ensures
        transition.pop_count() > before.len() <==> (result matches Err(
            StackError::Underflow { .. },
        )),
        transition.pop_count() > before.len() ==> {
            &&& log.len() == 0
            &&& after == before
            &&& ctx_after == ctx_before
            &&& result == Err::<(), StackError>(
                StackError::Underflow {
                    requested: transition.pop_count() as usize,
                    depth: before.len() as usize,
                },
            )
        },
{
}

/// A frame that ends with an underflow has removed and added nothing: every
/// state has had its update, no state has entered or left, and the stack
/// holds the states it held, each as its update hook left it.
pub proof fn law_refused_frame_keeps_the_stack<Ctx, S: Hooks<Ctx>>(
    log: Seq<HookCall<Ctx, S>>,
    before: Seq<S>,
    after: Seq<S>,
    ctx_before: Ctx,
    ctx_after: Ctx,
    result: Result<bool, StackError>,
)
    requires
        crate::effects::frames(log, before, after, ctx_before, ctx_after, result),
        result matches Err(StackError::Underflow { .. }),
    ensures
        after.len() == before.len(),
        log.len() == before.len(),
        crate::hooks::calls(log, Hook::Update) == before.len(),
        crate::hooks::calls(log, Hook::Enter) == 0,
        crate::hooks::calls(log, Hook::Leave) == 0,
        forall|i: int|
            0 <= i < before.len() ==> (#[trigger] log[i]).before == before[i] && log[i].after
                == after[i],
{
    let (pass_log, rest_log, mid, ctx_mid, pending) = choose|
        pass_log: Seq<HookCall<Ctx, S>>,
        rest_log: Seq<HookCall<Ctx, S>>,
        mid: Seq<S>,
        ctx_mid: Ctx,
        pending: Result<Transition<S>, anyhow::Error>,
    |
        {
            &&& log == pass_log + rest_log
            &&& #[trigger] crate::effects::ends(
                pass_log,
                rest_log,
                mid,
                ctx_mid,
                pending,
                before,
                after,
                ctx_before,
                ctx_after,
                result,
            )
        };
    let transition = pending->Ok_0;
    let applied = choose|applied: Result<(), StackError>|
        {
            &&& #[trigger] crate::effects::applies(
                rest_log,
                mid,
                after,
                transition,
                ctx_mid,
                ctx_after,
                applied,
            )
            &&& result == match applied {
                Ok(_) => Ok::<bool, StackError>(after.len() > 0),
                Err(e) => Err::<bool, StackError>(e),
            }
        };
    law_underflow_changes_nothing(rest_log, mid, after, transition, ctx_mid, ctx_after, applied);
    law_pass_updates_each_state_once(pass_log, before, mid, ctx_before, ctx_mid, transition);
    assert(log =~= pass_log);
}

} // verus!
