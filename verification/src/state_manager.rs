//! States, the transitions they ask for, and the manager of their stack.
//!
//! The manager works on any type with [`Hooks`], which every [`State`] has.
use vstd::prelude::*;

use crate::error::StackError;
use crate::hooks::HookCall;
use crate::hooks::Hooks;
use crate::hooks::HookOutcome;

verus! {

/// The one change to the stack that a state may ask for after a frame.
pub enum Transition<S> {
    /// No change.
    Stay,
    /// Put this state on top.
    Push(S),
    /// Remove this many states from the top.
    Pop(usize),
    /// Remove this many states from the top, then put this state on top.
    Replace(usize, S),
}

impl<S> Transition<S> {
    /// How many states the transition removes.
    pub open spec fn pop_count(self) -> nat {
        match self {
            Transition::Stay => 0,
            Transition::Push(_) => 0,
            Transition::Pop(count) => count as nat,
            Transition::Replace(count, _) => count as nat,
        }
    }
}

/// A hook has left the state and the context as it found them.
pub open spec fn untouched<S, Ctx>(before: S, after: S, ctx_before: Ctx, ctx_after: Ctx) -> bool {
    after == before && ctx_after == ctx_before
}

/// One entry of the stack: a screen or mode with hooks for entering the
/// stack, for each frame, and for leaving the stack. A hook that a state does
/// not write does nothing and succeeds.
///
/// For each hook a state can declare what the hook does where the state
/// writes it: a relation between the state and the context before the call,
/// the state and the context after it, and the result. A relation that is
/// left as it is here allows anything. A call of a hook then does what the
/// state declares for it, or what the hook does unwritten: it leaves the
/// state and the context as they were and succeeds.
///
/// A state whose hooks are to be known exactly implements
/// [`Hooks`](crate::hooks::Hooks) instead.
pub trait State<Ctx>: Sized {
    /// What `on_update` does when called with `depth`, where the state
    /// writes it.
    open spec fn on_update_does(
        before: Self,
        after: Self,
        ctx_before: Ctx,
        ctx_after: Ctx,
        depth: usize,
        result: Result<Transition<Self>, anyhow::Error>,
    ) -> bool {
        true
    }

    /// What `on_push` does, where the state writes it.
    open spec fn on_push_does(
        before: Self,
        after: Self,
        ctx_before: Ctx,
        ctx_after: Ctx,
        result: Result<(), anyhow::Error>,
    ) -> bool {
        true
    }

    /// What `on_pop` does, where the state writes it.
    open spec fn on_pop_does(
        before: Self,
        after: Self,
        ctx_before: Ctx,
        ctx_after: Ctx,
        result: Result<(), anyhow::Error>,
    ) -> bool {
        true
    }

    /// Called once per frame. `depth` is the number of states above this one:
    /// 0 for the topmost state, which alone has the focus. Unwritten, it
    /// changes nothing and asks for no change to the stack.
    fn on_update(&mut self, _ctx: &mut Ctx, _depth: usize) -> (result: Result<
        Transition<Self>,
        anyhow::Error,
    >)
        ensures
            Self::on_update_does(
                *old(self),
                *final(self),
                *old(_ctx),
                *final(_ctx),
                _depth,
                result,
            ) || (untouched(*old(self), *final(self), *old(_ctx), *final(_ctx)) && result == Ok::<
                Transition<Self>,
                anyhow::Error,
            >(Transition::Stay)),
    {
        Ok(Transition::Stay)
    }

    /// Called once when the state is about to enter the stack. Unwritten, it
    /// changes nothing and succeeds.
    fn on_push(&mut self, _ctx: &mut Ctx) -> (result: Result<(), anyhow::Error>)
        ensures
            Self::on_push_does(*old(self), *final(self), *old(_ctx), *final(_ctx), result) || (
            untouched(*old(self), *final(self), *old(_ctx), *final(_ctx)) && result is Ok),
    {
        Ok(())
    }

    /// Called once when the state has left the stack. Unwritten, it changes
    /// nothing and succeeds.
    fn on_pop(&mut self, _ctx: &mut Ctx) -> (result: Result<(), anyhow::Error>)
        ensures
            Self::on_pop_does(*old(self), *final(self), *old(_ctx), *final(_ctx), result) || (
            untouched(*old(self), *final(self), *old(_ctx), *final(_ctx)) && result is Ok),
    {
        Ok(())
    }
}

/// Owns the stack of states, bottom first.
pub struct StateManager<S> {
    states: Vec<S>,
}

impl<S> View for StateManager<S> {
    type V = Seq<S>;

    /// The states, bottom first.
    closed spec fn view(&self) -> Seq<S> {
        self.states@
    }
}

impl<S> Default for StateManager<S> {
    /// An empty manager.
    fn default() -> (manager: Self)
        ensures
            manager@ == Seq::<S>::empty(),
    {
        StateManager { states: Vec::new() }
    }
}

impl<S> StateManager<S> {
    /// An empty manager. `suggested_capacity` reserves room and bounds nothing.
    pub fn new(suggested_capacity: usize) -> (manager: Self)
        ensures
            manager@ == Seq::<S>::empty(),
    {
        StateManager { states: Vec::with_capacity(suggested_capacity) }
    }

    /// How many states the stack holds.
    pub fn depth(&self) -> (depth: usize)
        ensures
            depth == self@.len(),
    {
        self.states.len()
    }

    /// The state at `index`, counted from the bottom of the stack, if there
    /// is one.
    pub fn state(&self, index: usize) -> (state: Option<&S>)
        ensures
            index < self@.len() ==> state == Some(&self@[index as int]),
            index >= self@.len() ==> state is None,
    {
        if index < self.states.len() {
            Some(&self.states[index])
        } else {
            None
        }
    }

    /// Runs the enter hook of `state` and, if the hook succeeds, puts the
    /// state on top. If the hook fails the stack stays as it was and the
    /// hook's error is returned.
    pub fn push_state<Ctx>(&mut self, state: S, ctx: &mut Ctx) -> (result: Result<
        (),
        anyhow::Error,
    >) where S: Hooks<Ctx>
        ensures
            exists|log: Seq<HookCall<Ctx, S>>|
                crate::effects::pushes(
                    log,
                    old(self)@,
                    final(self)@,
                    state,
                    *old(ctx),
                    *final(ctx),
                    result,
                ),
            result is Ok ==> final(self)@.len() == old(self)@.len() + 1 && final(self)@.drop_last()
                == old(self)@,
            result is Err ==> final(self)@ == old(self)@,
    {
        let mut entering = state;
        let ghost ctx_before = *ctx;
        let outcome = entering.enter(ctx);
        let ghost call = HookCall {
            before: state,
            after: entering,
            ctx_before,
            ctx_after: *ctx,
            outcome: HookOutcome::Entered(outcome),
        };
        if outcome.is_ok() {
            self.states.push(entering);
        }
        assert(crate::effects::pushes(seq![call], old(self)@, self@, state, ctx_before, *ctx, outcome));
        outcome
    }

    /// Removes the top `count` states, topmost first, and runs the leave
    /// hook of each as it goes. A state is removed before its hook runs. If a
    /// hook fails, the states removed so far stay removed, the rest stay on
    /// the stack, and the hook's error is returned.
    pub fn pop_states<Ctx>(&mut self, count: usize, ctx: &mut Ctx) -> (result: Result<
        (),
        anyhow::Error,
    >) where S: Hooks<Ctx>
        requires
            count <= old(self)@.len(),
        ensures
            exists|log: Seq<HookCall<Ctx, S>>|
                crate::effects::pops(
                    log,
                    old(self)@,
                    final(self)@,
                    count,
                    *old(ctx),
                    *final(ctx),
                    result,
                ),
            result is Ok ==> final(self)@ == old(self)@.take(old(self)@.len() - count),
            result is Err ==> old(self)@.len() - count <= final(self)@.len() < old(self)@.len()
                && final(self)@ == old(self)@.take(final(self)@.len() as int),
    {
        let ghost mut log: Seq<HookCall<Ctx, S>> = Seq::empty();
        let mut done: usize = 0;
        while done < count
            invariant
                done <= count <= old(self)@.len(),
                log.len() == done,
                self@ == old(self)@.take(old(self)@.len() - done),
                crate::hooks::faithful(log, *old(ctx), *ctx),
                forall|i: int|
                    0 <= i < log.len() ==> {
                        &&& (#[trigger] log[i]).before == old(self)@[old(self)@.len() - 1 - i]
                        &&& log[i].outcome matches HookOutcome::Left(left)
                        &&& left is Ok
                    },
            decreases count - done,
        {
            let mut leaving = self.states.pop().unwrap();
            let ghost call_before = leaving;
            let ghost ctx_before = *ctx;
            let outcome = leaving.leave(ctx);
            proof {
                let call = HookCall {
                    before: call_before,
                    after: leaving,
                    ctx_before,
                    ctx_after: *ctx,
                    outcome: HookOutcome::Left(outcome),
                };
                assert(call.genuine());
                log = log.push(call);
            }
            done += 1;
            assert(self@ =~= old(self)@.take(old(self)@.len() - done));
            if outcome.is_err() {
                assert(crate::effects::pops(log, old(self)@, self@, count, *old(ctx), *ctx, outcome));
                return outcome;
            }
        }
        assert(crate::effects::pops(log, old(self)@, self@, count, *old(ctx), *ctx, Ok(())));
        Ok(())
    }

    /// Applies `transition` to the stack. A transition that removes more
    /// states than the stack holds is refused before anything is removed.
    /// Otherwise `Pop` is `pop_states`, `Push` is `push_state`, and `Replace`
    /// is the one and then, if it succeeded, the other.
    pub fn apply_pending_transition<Ctx>(
        &mut self,
        transition: Transition<S>,
        ctx: &mut Ctx,
    ) -> (result: Result<(), StackError>) where S: Hooks<Ctx>
        ensures
            exists|log: Seq<HookCall<Ctx, S>>|
                crate::effects::applies(
                    log,
                    old(self)@,
                    final(self)@,
                    transition,
                    *old(ctx),
                    *final(ctx),
                    result,
                ),
            transition.pop_count() > old(self)@.len() ==> {
                &&& final(self)@ == old(self)@
                &&& *final(ctx) == *old(ctx)
                &&& result == Err::<(), StackError>(
                    StackError::Underflow {
                        requested: transition.pop_count() as usize,
                        depth: old(self)@.len() as usize,
                    },
                )
            },
    {
        let ghost none: Seq<HookCall<Ctx, S>> = Seq::empty();
        let depth = self.states.len();
        match transition {
            Transition::Stay => {
                assert(crate::effects::applies(none, old(self)@, self@, transition, *old(ctx), *ctx, Ok(())));
                Ok(())
            },
            Transition::Push(state) => {
                let entered = self.push_state(state, ctx);
                let result = StackError::from_hook(entered);
                proof {
                    let log = choose|log: Seq<HookCall<Ctx, S>>|
                        crate::effects::pushes(log, old(self)@, self@, state, *old(ctx), *ctx, entered);
                    assert(crate::effects::applies(log, old(self)@, self@, transition, *old(ctx), *ctx, result));
                }
                result
            },
            Transition::Pop(count) => {
                if count > depth {
                    let refused = Err(StackError::Underflow { requested: count, depth });
                    assert(crate::effects::applies(none, old(self)@, self@, transition, *old(ctx), *ctx, refused));
                    return refused;
                }
                let left = self.pop_states(count, ctx);
                let result = StackError::from_hook(left);
                proof {
                    let log = choose|log: Seq<HookCall<Ctx, S>>|
                        crate::effects::pops(log, old(self)@, self@, count, *old(ctx), *ctx, left);
                    assert(crate::effects::applies(log, old(self)@, self@, transition, *old(ctx), *ctx, result));
                }
                result
            },
            Transition::Replace(count, state) => {
                if count > depth {
                    let refused = Err(StackError::Underflow { requested: count, depth });
                    assert(crate::effects::applies(none, old(self)@, self@, transition, *old(ctx), *ctx, refused));
                    return refused;
                }
                let left = self.pop_states(count, ctx);
                let ghost pop_log = choose|log: Seq<HookCall<Ctx, S>>|
                    crate::effects::pops(log, old(self)@, self@, count, *old(ctx), *ctx, left);
                let ghost mid = self@;
                let ghost ctx_mid = *ctx;
                if left.is_err() {
                    let result = StackError::from_hook(left);
                    proof {
                        assert(pop_log + none =~= pop_log);
                        assert(crate::effects::replaces(
                            pop_log,
                            none,
                            mid,
                            ctx_mid,
                            left,
                            old(self)@,
                            self@,
                            count,
                            state,
                            *old(ctx),
                            *ctx,
                            result,
                        ));
                        assert(crate::effects::applies(
                            pop_log + none,
                            old(self)@,
                            self@,
                            transition,
                            *old(ctx),
                            *ctx,
                            result,
                        ));
                    }
                    return result;
                }
                let entered = self.push_state(state, ctx);
                let result = StackError::from_hook(entered);
                proof {
                    let push_log = choose|log: Seq<HookCall<Ctx, S>>|
                        crate::effects::pushes(log, mid, self@, state, ctx_mid, *ctx, entered);
                    assert(crate::effects::replaces(
                        pop_log,
                        push_log,
                        mid,
                        ctx_mid,
                        left,
                        old(self)@,
                        self@,
                        count,
                        state,
                        *old(ctx),
                        *ctx,
                        result,
                    ));
                    assert(crate::effects::applies(
                        pop_log + push_log,
                        old(self)@,
                        self@,
                        transition,
                        *old(ctx),
                        *ctx,
                        result,
                    ));
                }
                result
            },
        }
    }

    /// Runs one frame. Every state gets one call of its update hook, bottom
    /// first, each with the number of states above it. The transition that
    /// the topmost state returned is then applied; what the states beneath it
    /// returned is dropped. A hook that fails ends the pass at once, and
    /// nothing is applied.
    ///
    /// Returns whether any state is left on the stack, that is, whether there
    /// is anything left to run.
    pub fn on_update<Ctx>(&mut self, ctx: &mut Ctx) -> (result: Result<bool, StackError>) where
        S: Hooks<Ctx>,
        ensures
            exists|log: Seq<HookCall<Ctx, S>>|
                crate::effects::frames(
                    log,
                    old(self)@,
                    final(self)@,
                    *old(ctx),
                    *final(ctx),
                    result,
                ),
            result matches Ok(go_on) ==> go_on == (final(self)@.len() > 0),
    {
        let ghost mut log: Seq<HookCall<Ctx, S>> = Seq::empty();
        let total = self.states.len();
        let mut pending: Transition<S> = Transition::Stay;
        let mut index: usize = 0;
        while index < total
            invariant
                index <= total == old(self)@.len() == self@.len(),
                log.len() == index,
                crate::hooks::faithful(log, *old(ctx), *ctx),
                forall|i: int|
                    0 <= i < log.len() ==> {
                        &&& (#[trigger] log[i]).before == old(self)@[i]
                        &&& log[i].after == self@[i]
                        &&& log[i].outcome matches HookOutcome::Updated(depth, returned)
                        &&& depth == total - 1 - i
                        &&& returned is Ok
                        &&& i == log.len() - 1 ==> returned == Ok::<Transition<S>, anyhow::Error>(
                            pending,
                        )
                    },
                forall|i: int| index <= i < total ==> self@[i] == old(self)@[i],
                index == 0 ==> pending == Transition::<S>::Stay,
            decreases total - index,
        {
            let depth = total - 1 - index;
            let ghost state_before = self@[index as int];
            let ghost ctx_before = *ctx;
            let outcome = self.states[index].update(ctx, depth);
            proof {
                let call = HookCall {
                    before: state_before,
                    after: self@[index as int],
                    ctx_before,
                    ctx_after: *ctx,
                    outcome: HookOutcome::Updated(depth, outcome),
                };
                assert(call.genuine());
                log = log.push(call);
            }
            index += 1;
            match outcome {
                Ok(transition) => {
                    pending = transition;
                },
                Err(e) => {
                    proof {
                        let none: Seq<HookCall<Ctx, S>> = Seq::empty();
                        let failed = Err::<Transition<S>, anyhow::Error>(e);
                        assert(crate::effects::visits(log, old(self)@, self@, *old(ctx), *ctx, failed));
                        assert(log + none =~= log);
                        assert(crate::effects::ends(
                            log,
                            none,
                            self@,
                            *ctx,
                            failed,
                            old(self)@,
                            self@,
                            *old(ctx),
                            *ctx,
                            Err(StackError::Hook(e)),
                        ));
                        assert(crate::effects::frames(
                            log + none,
                            old(self)@,
                            self@,
                            *old(ctx),
                            *ctx,
                            Err(StackError::Hook(e)),
                        ));
                    }
                    return Err(StackError::Hook(e));
                },
            }
        }
        let ghost mid = self@;
        let ghost ctx_mid = *ctx;
        let ghost passed = Ok::<Transition<S>, anyhow::Error>(pending);
        assert(crate::effects::visits(log, old(self)@, mid, *old(ctx), ctx_mid, passed));
        let applied = self.apply_pending_transition(pending, ctx);
        let result = match applied {
            Ok(_) => Ok(self.states.len() > 0),
            Err(e) => Err(e),
        };
        proof {
            let rest = choose|rest: Seq<HookCall<Ctx, S>>|
                crate::effects::applies(rest, mid, self@, pending, ctx_mid, *ctx, applied);
            assert(crate::effects::ends(
                log,
                rest,
                mid,
                ctx_mid,
                passed,
                old(self)@,
                self@,
                *old(ctx),
                *ctx,
                result,
            ));
            assert(crate::effects::frames(log + rest, old(self)@, self@, *old(ctx), *ctx, result));
        }
        result
    }
}

} // verus!
