//! The hooks of a state as the manager sees them, and a record of the calls
//! that the manager makes of them.
//!
//! The contracts of the manager speak of a log: the sequence of hook calls
//! that an operation made, oldest first. A log says which hook ran on which
//! state, what it was given and what it left behind.
use vstd::prelude::*;

use crate::state_manager::State;
use crate::state_manager::Transition;

verus! {

/// The three hooks of a state, each with a relation that says what it can
/// do: which combinations of state and context before the call, state and
/// context after it, and result the hook can produce. The hook must meet its
/// relation. A relation that is left as it is here allows anything.
///
/// The manager assumes nothing of a hook but its relation, and its own
/// contracts are stated over these relations: that one of them holds of some
/// values is known only from a call of the hook.
///
/// Every [`State`] has these hooks.
pub trait Hooks<Ctx>: Sized {
    /// What `enter` can do.
    open spec fn enters(
        before: Self,
        after: Self,
        ctx_before: Ctx,
        ctx_after: Ctx,
        result: Result<(), anyhow::Error>,
    ) -> bool {
        true
    }

    /// What `update` can do when called with `depth`.
    open spec fn updates(
        before: Self,
        after: Self,
        ctx_before: Ctx,
        ctx_after: Ctx,
        depth: usize,
        result: Result<Transition<Self>, anyhow::Error>,
    ) -> bool {
        true
    }

    /// What `leave` can do.
    open spec fn leaves(
        before: Self,
        after: Self,
        ctx_before: Ctx,
        ctx_after: Ctx,
        result: Result<(), anyhow::Error>,
    ) -> bool {
        true
    }

    /// Called once when the state is about to enter the stack.
    fn enter(&mut self, ctx: &mut Ctx) -> (result: Result<(), anyhow::Error>)
        ensures
            Self::enters(*old(self), *final(self), *old(ctx), *final(ctx), result),
    ;

    /// Called once per frame. `depth` is the number of states above this one:
    /// 0 for the topmost state, which alone has the focus.
    fn update(&mut self, ctx: &mut Ctx, depth: usize) -> (result: Result<
        Transition<Self>,
        anyhow::Error,
    >)
        ensures
            Self::updates(*old(self), *final(self), *old(ctx), *final(ctx), depth, result),
    ;

    /// Called once when the state has left the stack.
    fn leave(&mut self, ctx: &mut Ctx) -> (result: Result<(), anyhow::Error>)
        ensures
            Self::leaves(*old(self), *final(self), *old(ctx), *final(ctx), result),
    ;
}

/// The hooks of a [`State`] are its `on_push`, `on_update` and `on_pop`. Each
/// can do what the state declares for it and what the hook does unwritten.
impl<Ctx, S: State<Ctx>> Hooks<Ctx> for S {
    open spec fn enters(
        before: Self,
        after: Self,
        ctx_before: Ctx,
        ctx_after: Ctx,
        result: Result<(), anyhow::Error>,
    ) -> bool {
        S::on_push_does(before, after, ctx_before, ctx_after, result) || (
        crate::state_manager::untouched(before, after, ctx_before, ctx_after) && result is Ok)
    }

    open spec fn updates(
        before: Self,
        after: Self,
        ctx_before: Ctx,
        ctx_after: Ctx,
        depth: usize,
        result: Result<Transition<Self>, anyhow::Error>,
    ) -> bool {
        S::on_update_does(before, after, ctx_before, ctx_after, depth, result) || (
        crate::state_manager::untouched(before, after, ctx_before, ctx_after) && result == Ok::<
            Transition<Self>,
            anyhow::Error,
        >(Transition::Stay))
    }

    open spec fn leaves(
        before: Self,
        after: Self,
        ctx_before: Ctx,
        ctx_after: Ctx,
        result: Result<(), anyhow::Error>,
    ) -> bool {
        S::on_pop_does(before, after, ctx_before, ctx_after, result) || (
        crate::state_manager::untouched(before, after, ctx_before, ctx_after) && result is Ok)
    }

    fn enter(&mut self, ctx: &mut Ctx) -> (result: Result<(), anyhow::Error>) {
        self.on_push(ctx)
    }

    fn update(&mut self, ctx: &mut Ctx, depth: usize) -> (result: Result<
        Transition<Self>,
        anyhow::Error,
    >) {
        self.on_update(ctx, depth)
    }

    fn leave(&mut self, ctx: &mut Ctx) -> (result: Result<(), anyhow::Error>) {
        self.on_pop(ctx)
    }
}

/// One call of a hook: the state and the context as the hook found them and
/// as it left them, and which hook it was with what it returned.
pub struct HookCall<Ctx, S> {
    pub before: S,
    pub after: S,
    pub ctx_before: Ctx,
    pub ctx_after: Ctx,
    pub outcome: HookOutcome<S>,
}

/// The names of the three hooks.
pub enum Hook {
    /// `enter`.
    Enter,
    /// `update`.
    Update,
    /// `leave`.
    Leave,
}

/// Which hook was called, and what it returned.
pub enum HookOutcome<S> {
    /// `enter` returned this.
    Entered(Result<(), anyhow::Error>),
    /// `update`, called with this depth, returned this.
    Updated(usize, Result<Transition<S>, anyhow::Error>),
    /// `leave` returned this.
    Left(Result<(), anyhow::Error>),
}

impl<S> HookOutcome<S> {
    /// The hook that was called.
    pub open spec fn hook(self) -> Hook {
        match self {
            HookOutcome::Entered(_) => Hook::Enter,
            HookOutcome::Updated(_, _) => Hook::Update,
            HookOutcome::Left(_) => Hook::Leave,
        }
    }
}

impl<Ctx, S: Hooks<Ctx>> HookCall<Ctx, S> {
    /// The call is one that the hook can make: it meets the relation that
    /// the state declares for that hook.
    pub open spec fn genuine(self) -> bool {
        match self.outcome {
            HookOutcome::Entered(result) => S::enters(
                self.before,
                self.after,
                self.ctx_before,
                self.ctx_after,
                result,
            ),
            HookOutcome::Updated(depth, result) => S::updates(
                self.before,
                self.after,
                self.ctx_before,
                self.ctx_after,
                depth,
                result,
            ),
            HookOutcome::Left(result) => S::leaves(
                self.before,
                self.after,
                self.ctx_before,
                self.ctx_after,
                result,
            ),
        }
    }
}

/// Every call of `log` is one that its hook can make, and the calls follow
/// one another: the first finds the context as `ctx_before`, each later one
/// finds it as the one before left it, and the last leaves it as `ctx_after`.
/// An empty log leaves the context alone.
pub open spec fn faithful<Ctx, S: Hooks<Ctx>>(
    log: Seq<HookCall<Ctx, S>>,
    ctx_before: Ctx,
    ctx_after: Ctx,
) -> bool {
    &&& forall|i: int| 0 <= i < log.len() ==> (#[trigger] log[i]).genuine()
    &&& forall|i: int, j: int|
        0 <= i && j == i + 1 && j < log.len() ==> (#[trigger] log[i]).ctx_after == (
        #[trigger] log[j]).ctx_before
    &&& ctx_before == if log.len() == 0 {
        ctx_after
    } else {
        log.first().ctx_before
    }
    &&& ctx_after == if log.len() == 0 {
        ctx_before
    } else {
        log.last().ctx_after
    }
}

/// How many calls of `hook` the log holds.
pub open spec fn calls<Ctx, S>(log: Seq<HookCall<Ctx, S>>, hook: Hook) -> nat
    decreases log.len(),
{
    if log.len() == 0 {
        0
    } else {
        calls(log.drop_last(), hook) + if log.last().outcome.hook() == hook {
            1nat
        } else {
            0nat
        }
    }
}

/// The calls of two logs in a row are the calls of the one and the calls of
/// the other.
pub proof fn lemma_calls_of_both<Ctx, S>(
    first: Seq<HookCall<Ctx, S>>,
    second: Seq<HookCall<Ctx, S>>,
    hook: Hook,
)
    ensures
        calls(first + second, hook) == calls(first, hook) + calls(second, hook),
    decreases second.len(),
{
    if second.len() == 0 {
        assert(first + second =~= first);
    } else {
        lemma_calls_of_both(first, second.drop_last(), hook);
        assert((first + second).drop_last() =~= first + second.drop_last());
    }
}

/// A log that holds calls of one hook only holds as many calls of it as it
/// is long, and none of another hook.
pub proof fn lemma_calls_of_one_hook<Ctx, S>(log: Seq<HookCall<Ctx, S>>, only: Hook, hook: Hook)
    requires
        forall|i: int| 0 <= i < log.len() ==> (#[trigger] log[i]).outcome.hook() == only,
    ensures
        calls(log, hook) == if hook == only {
            log.len()
        } else {
            0
        },
    decreases log.len(),
{
    if log.len() > 0 {
        lemma_calls_of_one_hook(log.drop_last(), only, hook);
    }
}

} // verus!
