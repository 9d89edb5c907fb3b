use vstd::prelude::*;

verus! {

use crate::Error;
use crate::context::Context;
use crate::context::ContextStack;
use crate::context::ContextState;
use crate::registers::Registers;
use crate::registers::saved_fp;
use crate::registers::saved_lr;
use crate::registers::saved_sp;
use crate::switch::swap_transition;

/// The OS status code of a guard-page access violation (the NTSTATUS value
/// `STATUS_GUARD_PAGE_VIOLATION`), the one fault signature that can mean a
/// coroutine ran off the end of its stack into the guard region.
pub const GUARD_PAGE_VIOLATION: u32 = 0x8000_0001;

/// The live machine register state the OS hands a fault handler, reduced to
/// the slots this engine reads and rewrites on aarch64: the callee-saved
/// general registers, frame pointer, stack pointer, program counter, and the
/// low 64 bits of the callee-saved floating-point registers (as raw bits).
/// When the handler classifies a fault as a coroutine stack overflow it
/// rewrites this state in place, so that resuming execution lands in the
/// parent frame — the faulting frame's own stack is unusable for any
/// conventional return.
#[derive(Clone, Copy, Debug)]
pub struct MachineContext {
    /// x19..x28, in order.
    pub x: [usize; 10],
    /// x29, the frame pointer.
    pub fp: usize,
    /// The stack pointer at the fault.
    pub sp: usize,
    /// The program counter execution resumes at.
    pub pc: usize,
    /// Low 64 bits of v8..v15 (d8..d15), in order, as raw bits.
    pub v_low: [usize; 8],
}

/// What the handler may tell the OS: keep searching for another handler (the
/// fault is not this engine's business) or resume execution with the — by
/// then rewritten — machine context. No third outcome exists.
#[derive(Clone, Copy, Debug, PartialEq, Eq, Structural)]
pub enum FaultDisposition {
    ContinueSearch,
    ContinueExecution,
}

/// The machine context holds exactly the saved register file `regs`, with the
/// program counter taken from the saved link register: the state a completed
/// register swap into `regs` would have produced.
pub open spec fn restored_from(ctx: MachineContext, regs: Registers) -> bool {
    &&& forall|i: int| 0 <= i < 10 ==> ctx.x@[i] == regs@[i]
    &&& ctx.fp == regs@[10]
    &&& ctx.pc == regs@[11]
    &&& ctx.sp == regs@[12]
    &&& forall|i: int| 0 <= i < 8 ==> ctx.v_low@[i] == regs@[13 + i]
}

impl MachineContext {
    /// An all-zero machine context, a neutral starting value for callers that
    /// build one up before handing it to the rewrite.
    pub fn new() -> (r: MachineContext)
        ensures
            forall|i: int| 0 <= i < 10 ==> r.x@[i] == 0usize,
            r.fp == 0,
            r.sp == 0,
            r.pc == 0,
            forall|i: int| 0 <= i < 8 ==> r.v_low@[i] == 0usize,
    {
        MachineContext { x: [0; 10], fp: 0, sp: 0, pc: 0, v_low: [0; 8] }
    }
}

/// Rewrite the OS-provided machine context so that resuming execution behaves
/// as if the parent's half of a register swap had just completed: every
/// callee-saved slot of `parent`'s saved file goes into the live state, and
/// execution resumes at the parent's saved link register.
pub fn context_init(parent: &Context, context: &mut MachineContext)
    ensures
        restored_from(*final(context), parent.regs),
{
    // x19..x28 come straight out of the saved file, same order.
    let mut i: usize = 0;
    while i < 10
        invariant
            i <= 10,
            context.x@.len() == 10,
            forall|j: int| 0 <= j < i ==> context.x@[j] == parent.regs@[j],
        decreases 10 - i,
    {
        context.x[i] = parent.regs.regs[i];
        i = i + 1;
    }

    // Frame pointer and stack pointer are restored as saved; the saved link
    // register becomes the program counter, because resuming from the OS is
    // this frame's substitute for the return the swap routine would have
    // performed.
    context.fp = parent.regs.regs[10];
    context.pc = parent.regs.regs[11];
    context.sp = parent.regs.regs[12];

    // d8..d15, saved as raw bits, go back into the low halves of v8..v15.
    let mut k: usize = 0;
    while k < 8
        invariant
            k <= 8,
            context.v_low@.len() == 8,
            forall|j: int| 0 <= j < 10 ==> context.x@[j] == parent.regs@[j],
            context.fp == parent.regs@[10],
            context.pc == parent.regs@[11],
            context.sp == parent.regs@[12],
            forall|j: int| 0 <= j < k ==> context.v_low@[j] == parent.regs@[13 + j],
        decreases 8 - k,
    {
        context.v_low[k] = parent.regs.regs[13 + k];
        k = k + 1;
    }
}

/// Law: the forced rewrite the overflow path performs is exactly the parent's
/// half of a normal register swap. A machine context restored from the
/// parent's saved file carries the same callee-saved state a swap into that
/// file would leave in the machine, with execution resuming at the swap's
/// return address (the saved link register) on the parent's saved stack
/// pointer — which is why the OS resuming from the rewritten context behaves
/// as if the parent's suspended swap call had just returned.
pub proof fn lemma_forced_rewrite_matches_swap(
    ctx: MachineContext,
    parent: Registers,
    machine0: Registers,
    machine1: Registers,
    out1: Registers,
)
    requires
        restored_from(ctx, parent),
        swap_transition(machine0, parent, machine1, out1),
    ensures
        forall|i: int| 0 <= i < 10 ==> ctx.x@[i] == machine1@[i],
        ctx.fp == saved_fp(machine1@),
        ctx.pc == saved_lr(machine1@),
        ctx.sp == saved_sp(machine1@),
        forall|i: int| 0 <= i < 8 ==> ctx.v_low@[i] == machine1@[13 + i],
{
}

/// A fault is a coroutine stack overflow exactly when its code is the
/// guard-page violation signature, a coroutine is actually running above the
/// thread's root frame, and the faulting stack pointer lies in the guard
/// region of the stack owned by that running frame. Anything weaker risks
/// resuming execution into an unrelated parent, so the address check is part
/// of the classification on every target.
pub open spec fn is_coroutine_overflow(code: u32, sp: usize, chain: Seq<Context>) -> bool {
    &&& code == GUARD_PAGE_VIOLATION
    &&& chain.len() >= 2
    &&& chain.last().stack.guard_contains(sp)
}

/// The decision half of the process-wide fault observer, for one intercepted
/// fault on the faulting thread's own chain: `code` is the fault's
/// classification code and `sp` the faulting stack-pointer value, both read
/// out of the OS fault description.
///
/// If — and only if — the fault classifies as a coroutine stack overflow, the
/// running frame is marked faulted with a stack-overflow error, popped off
/// the chain and handed back to the caller, the machine context is rewritten
/// to resume the parent, and the OS is told to resume execution. Every other
/// fault is not this engine's business: nothing is touched and the OS keeps
/// searching for another handler.
pub fn handle_fault(
    env: &mut ContextStack,
    code: u32,
    sp: usize,
    context: &mut MachineContext,
) -> (r: (FaultDisposition, Option<Context>))
    ensures
        old(env).wf() ==> final(env).wf(),
        (r.0 is ContinueExecution) == is_coroutine_overflow(code, sp, old(env)@),
        !is_coroutine_overflow(code, sp, old(env)@) ==> {
            &&& r.0 is ContinueSearch
            &&& r.1 is None
            &&& final(env)@ == old(env)@
            &&& *final(context) == *old(context)
        },
        is_coroutine_overflow(code, sp, old(env)@) ==> {
            &&& final(env)@ == old(env)@.drop_last()
            &&& r.1 matches Some(faulted)
            &&& (r.1 matches Some(faulted) ==> {
                &&& faulted.regs == old(env)@.last().regs
                &&& faulted.stack == old(env)@.last().stack
                &&& faulted.err == Some(Error::StackErr)
                &&& faulted.state is Faulted
            })
            &&& restored_from(*final(context), old(env)@[old(env)@.len() - 2].regs)
        },
{
    // A coroutine can only be running if something sits above the thread's
    // root frame; with nothing to resume, the fault cannot be ours.
    if env.len() < 2 {
        return (FaultDisposition::ContinueSearch, None);
    }

    // The running frame's stack is the only one whose guard region matters:
    // the faulting thread executes on it and on no other.
    let guard_hit = env.top().stack.contains(sp);
    if !(code == GUARD_PAGE_VIOLATION && guard_hit) {
        return (FaultDisposition::ContinueSearch, None);
    }

    // The running frame overflowed: it is terminal from here on. Attach the
    // error, take it off the chain, and emulate the parent's half of a swap
    // inside the OS-provided machine context.
    let mut faulted = env.pop_context();
    faulted.err = Some(Error::StackErr);
    faulted.state = ContextState::Faulted;

    let parent = env.top();
    context_init(parent, context);

    (FaultDisposition::ContinueExecution, Some(faulted))
}

} // verus!
