//! Core engine of a stackful-coroutine ("green task") runtime: the saved
//! register context of a suspended coroutine, the per-thread chain of active
//! coroutine frames, the register-swap protocol that suspends one frame and
//! resumes another, and the decision logic of the guard-page stack-overflow
//! detector that turns a hardware fault into a typed error delivered to the
//! parent frame.
//!
//! The machine-level pieces — the assembly register-swap routine, the
//! bootstrap trampoline, and the OS vectored-exception-handler registration —
//! live outside this library; here each is modelled as an explicit value-level
//! state transition with a full contract, so that the layout, the hand-off
//! protocol and the fault classification are proved rather than assumed.

use vstd::prelude::*;

pub mod context;
pub mod overflow;
pub mod registers;
pub mod stack;
pub mod switch;

verus! {

/// The one domain error of this core: a coroutine exhausted its stack and the
/// overflow detector forced it back to its parent. It is attached to the
/// faulted frame and observed by whoever next resumes the parent.
#[derive(Clone, Copy, Debug, PartialEq, Eq, Structural)]
pub enum Error {
    StackErr,
}

} // verus!
