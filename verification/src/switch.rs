use vstd::prelude::*;

verus! {

use crate::registers::Registers;
use crate::registers::boot_arg1;
use crate::registers::boot_arg2;
use crate::registers::boot_entry;
use crate::registers::initialized_frame;
use crate::registers::saved_fp;
use crate::registers::saved_lr;
use crate::registers::saved_sp;

// The register swap is the only suspension point of the engine. On a real
// target it is one assembly routine operating on the live CPU registers; here
// the live callee-saved state is itself a `Registers` value (`machine`), so
// the whole transition is an explicit, verified step: save the current
// execution into `out_regs`, load `in_regs`, and continue wherever the loaded
// link register points.

/// The state transition one swap performs: the register file written out is
/// exactly the machine state before the swap, and the machine state after is
/// exactly the file switched into.
pub open spec fn swap_transition(
    machine_before: Registers,
    in_regs: Registers,
    machine_after: Registers,
    out_after: Registers,
) -> bool {
    &&& out_after == machine_before
    &&& machine_after == in_regs
}

/// Suspend the current execution into `out_regs` and resume the execution
/// saved in `in_regs`. `machine` is the live callee-saved register state of
/// the calling thread; after the swap, control is wherever `saved_lr(in_regs@)`
/// points, with the stack pointer `saved_sp(in_regs@)`. The call "returns"
/// only when some later swap loads `out_regs` back into the machine.
pub fn swap_registers(machine: &mut Registers, out_regs: &mut Registers, in_regs: &Registers)
    ensures
        swap_transition(*old(machine), *in_regs, *final(machine), *final(out_regs)),
{
    *out_regs = *machine;
    *machine = *in_regs;
}

/// What the bootstrap trampoline does on first entry into a fresh frame: it
/// moves the two words parked in the scratch slots into the entry function's
/// argument registers and calls the entry address, also parked. The model
/// returns the call it makes, `(entry, arg1, arg2)`; performing the call is
/// the target's business, and a coroutine body never returns through the
/// trampoline — it must switch away explicitly.
pub fn bootstrap_dispatch(machine: &Registers) -> (r: (usize, usize, usize))
    ensures
        r.0 == boot_entry(machine@),
        r.1 == boot_arg1(machine@),
        r.2 == boot_arg2(machine@),
{
    (machine.regs[2], machine.regs[0], machine.regs[1])
}

/// Law: switching into a freshly initialized frame transfers control to the
/// bootstrap trampoline with the frame's aligned stack top as stack and frame
/// pointer, and the trampoline then delivers exactly the two initialization
/// arguments, in order, to the entry function — before any coroutine body
/// code runs.
pub proof fn lemma_fresh_switch_delivers_args(
    machine0: Registers,
    machine1: Registers,
    out1: Registers,
    frame: Registers,
    fptr: usize,
    arg: usize,
    arg2: usize,
    sp: usize,
    trampoline: usize,
)
    requires
        frame@ == initialized_frame(fptr, arg, arg2, sp, trampoline),
        swap_transition(machine0, frame, machine1, out1),
    ensures
        saved_lr(machine1@) == trampoline,
        saved_sp(machine1@) == sp,
        saved_fp(machine1@) == sp,
        boot_entry(machine1@) == fptr,
        boot_arg1(machine1@) == arg,
        boot_arg2(machine1@) == arg2,
        out1 == machine0,
{
}

/// Law: switching from execution A into B and then immediately back into A's
/// saved file restores every callee-saved slot of A — the round trip is the
/// identity on the machine's callee-saved state, and B's file comes out of it
/// unchanged too.
pub proof fn lemma_switch_round_trip(
    machine0: Registers,
    machine1: Registers,
    machine2: Registers,
    a_saved: Registers,
    b_saved: Registers,
    b: Registers,
)
    requires
        swap_transition(machine0, b, machine1, a_saved),
        swap_transition(machine1, a_saved, machine2, b_saved),
    ensures
        machine2 == machine0,
        forall|i: int| 0 <= i < machine0@.len() ==> machine2@[i] == machine0@[i],
        b_saved == b,
{
}

} // verus!
