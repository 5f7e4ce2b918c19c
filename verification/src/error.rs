//! Errors of the state stack.
use vstd::prelude::*;

verus! {

/// `anyhow::Error`, the error that a hook of a state returns. The library
/// never looks inside one: it hands it back to the caller as it came.
#[verifier::external_type_specification]
#[verifier::external_body]
pub struct ExHookError(anyhow::Error);

/// Why a frame's update did not go through.
pub enum StackError {
    /// A hook of a state failed; this is its error, unchanged.
    Hook(anyhow::Error),
    /// A transition asked to pop more states than the stack holds. This is a
    /// bug in the state that asked, not a condition to recover from; nothing
    /// was removed.
    Underflow { requested: usize, depth: usize },
}

impl StackError {
    /// The result of a hook as the result of the frame it ran in.
    pub fn from_hook(hook: Result<(), anyhow::Error>) -> (result: Result<(), StackError>)
        ensures
            Self::carries(result, hook),
    {
        match hook {
            Ok(_) => Ok(()),
            Err(e) => Err(StackError::Hook(e)),
        }
    }

    /// `result` is what a frame returns when a hook in it returned `hook`:
    /// success for success, and the hook's own error, unchanged, for failure.
    pub open spec fn carries(result: Result<(), StackError>, hook: Result<(), anyhow::Error>) -> bool {
        match hook {
            Ok(_) => result is Ok,
            Err(e) => result == Err::<(), StackError>(StackError::Hook(e)),
        }
    }
}

} // verus!
