//! A state-stack engine: an ordered stack of interchangeable screens or modes,
//! of which the topmost has the focus while those beneath it keep running.
//!
//! [`StateManager`] owns the stack. Once per frame it lets every state update,
//! bottom to top, and then applies the one [`Transition`] that the topmost
//! state asked for. What a [`State`] does in its hooks is its own business;
//! the manager's contracts say which hooks ran, in which order, on which
//! values, and what became of the stack. A state that wants more said of its
//! hooks declares what they do, as [`Hooks`].
//!
//! A [`menu`] that is spoken rather than shown is the first state to go on
//! such a stack.
pub mod effects;
pub mod error;
pub mod hooks;
pub mod laws;
pub mod menu;
pub mod state_manager;
pub mod text;

pub use error::StackError;
pub use hooks::{Hook, HookCall, HookOutcome, Hooks};
pub use state_manager::{State, StateManager, Transition};
