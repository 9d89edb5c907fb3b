use vstd::prelude::*;

verus! {

use crate::Error;
use crate::registers::Registers;
use crate::registers::zero_regs;
use crate::stack::Stack;

/// Lifecycle of one coroutine frame. `Fresh` means its call frame has been
/// initialized but no switch into it has happened yet; `Running` covers both
/// active execution and intermediate suspensions; `Faulted` and `Completed`
/// are terminal — a terminal frame is never switched into again.
#[derive(Clone, Copy, Debug, PartialEq, Eq, Structural)]
pub enum ContextState {
    Fresh,
    Running,
    Faulted,
    Completed,
}

/// One coroutine invocation frame: its saved register file, its stack bounds,
/// an optional terminal error, and where it stands in its lifecycle.
#[derive(Clone, Copy, Debug)]
pub struct Context {
    /// Saved callee-saved register state of this frame while suspended.
    pub regs: Registers,
    /// Terminal error, set by the overflow detector when this frame's stack
    /// is exhausted; surfaced to whoever next resumes the parent.
    pub err: Option<Error>,
    /// Bounds of the stack this frame runs on.
    pub stack: Stack,
    /// Position in the lifecycle state machine.
    pub state: ContextState,
}

impl Context {
    pub open spec fn wf(self) -> bool {
        self.stack.wf()
    }

    /// A terminal frame must never be switched into again.
    pub open spec fn is_terminal(self) -> bool {
        self.state is Faulted || self.state is Completed
    }

    /// A frame starts with a zeroed register file, no error, and its whole
    /// lifecycle ahead of it.
    pub fn new(stack: Stack) -> (r: Context)
        ensures
            r.regs@ == zero_regs(),
            r.err is None,
            r.stack == stack,
            r.state is Fresh,
    {
        Context { regs: Registers::new(), err: None, stack, state: ContextState::Fresh }
    }
}

/// The per-thread LIFO chain of active coroutine frames: the last element is
/// the innermost, currently running frame, and each frame's parent is the
/// element just below it. A chain is owned by exactly one OS thread and never
/// shared; holding one by value is that ownership, so no locking appears
/// anywhere in the model.
#[derive(Debug)]
pub struct ContextStack {
    chain: Vec<Context>,
}

impl View for ContextStack {
    type V = Seq<Context>;

    closed spec fn view(&self) -> Seq<Context> {
        self.chain@
    }
}

impl ContextStack {
    pub open spec fn wf(self) -> bool {
        forall|i: int| 0 <= i < self@.len() ==> (#[trigger] self@[i]).wf()
    }

    /// A thread's chain starts empty; its owner pushes a root frame standing
    /// for the thread's own execution before entering any coroutine.
    pub fn new() -> (r: ContextStack)
        ensures
            r@ == Seq::<Context>::empty(),
            r.wf(),
    {
        ContextStack { chain: Vec::new() }
    }

    pub fn len(&self) -> (r: usize)
        ensures
            r == self@.len(),
    {
        self.chain.len()
    }

    /// Enter a frame: it becomes the innermost, currently running one. A
    /// terminal frame is never entered again, which the precondition enforces.
    pub fn push(&mut self, context: Context)
        requires
            !context.is_terminal(),
            context.wf(),
        ensures
            final(self)@ == old(self)@.push(context),
            old(self).wf() ==> final(self).wf(),
    {
        self.chain.push(context);
        proof {
            if old(self).wf() {
                assert forall|i: int| 0 <= i < self@.len() implies (#[trigger] self@[i]).wf() by {
                    if i < old(self)@.len() {
                        assert(self@[i] == old(self)@[i]);
                    } else {
                        assert(self@[i] == context);
                    }
                }
            }
        }
    }

    /// The innermost (currently running) frame. A chain may be asked for its
    /// top only while it is non-empty; callers guarantee that.
    pub fn top(&self) -> (r: &Context)
        requires
            self@.len() > 0,
        ensures
            *r == self@.last(),
    {
        &self.chain[self.chain.len() - 1]
    }

    /// Leave the innermost frame, returning it to the caller; its parent
    /// becomes the top. Strict LIFO nesting is part of the contract: there is
    /// no way to pop anything but the current top, so the out-of-order pop
    /// that the runtime interface guards against with an address check is
    /// ruled out here by construction.
    pub fn pop_context(&mut self) -> (r: Context)
        requires
            old(self)@.len() > 0,
        ensures
            r == old(self)@.last(),
            final(self)@ == old(self)@.drop_last(),
            old(self).wf() ==> final(self).wf(),
    {
        let r = self.chain.pop().unwrap();
        proof {
            if old(self).wf() {
                assert forall|i: int| 0 <= i < self@.len() implies (#[trigger] self@[i]).wf() by {
                    assert(self@[i] == old(self)@[i]);
                }
            }
        }
        r
    }
}

/// Law: a chain determines exactly one current frame — its top — and strict
/// LIFO nesting keeps it the most recent entry: after any number of pushes
/// with no pops in between, the top is the last-pushed frame, the ones below
/// stand unchanged in push order, and nothing else is in the chain.
pub proof fn lemma_top_after_pushes(before: Seq<Context>, pushed: Seq<Context>)
    requires
        pushed.len() > 0,
    ensures
        (before + pushed).last() == pushed.last(),
        (before + pushed).len() == before.len() + pushed.len(),
        forall|i: int| 0 <= i < before.len() ==> (before + pushed)[i] == before[i],
        forall|i: int| 0 <= i < pushed.len() ==> (before + pushed)[before.len() + i] == pushed[i],
{
}

} // verus!
