use vstd::prelude::*;

verus! {

use crate::stack::Stack;

/// Number of machine-word slots in a saved register file. The slot order is
/// the ABI contract shared with the assembly swap routine and the fault
/// handler's context rewrite; every producer and consumer must agree on it.
///
/// Layout (aarch64, Windows calling convention):
///   0..=9   x19..x28 (callee-saved general registers; x19..x21 double as the
///           argument/entry scratch slots of a fresh frame, consumed by the
///           bootstrap trampoline on first entry)
///   10      fp  (x29, frame pointer)
///   11      lr  (x30, link register: the address control returns to)
///   12      sp  (stack pointer)
///   13..=20 d8..d15 (callee-saved floating-point registers, as raw bits)
pub const REG_COUNT: usize = 21;

/// Scratch slot (x19) holding the first entry argument of a fresh frame.
pub const SLOT_ARG1: usize = 0;

/// Scratch slot (x20) holding the second entry argument of a fresh frame.
pub const SLOT_ARG2: usize = 1;

/// Scratch slot (x21) holding the entry function address of a fresh frame.
pub const SLOT_ENTRY: usize = 2;

/// Frame-pointer slot (x29).
pub const SLOT_FP: usize = 10;

/// Link-register slot (x30): where control lands when switched into.
pub const SLOT_LR: usize = 11;

/// Stack-pointer slot.
pub const SLOT_SP: usize = 12;

/// First of the eight floating-point slots (d8..d15, raw bits).
pub const SLOT_FPR_FIRST: usize = 13;

/// A fixed-layout snapshot of the callee-saved register state of one
/// suspended call chain: everything the switch primitive saves and restores.
#[derive(Clone, Copy, Debug)]
pub struct Registers {
    pub regs: [usize; REG_COUNT],
}

impl View for Registers {
    type V = Seq<usize>;

    open spec fn view(&self) -> Seq<usize> {
        self.regs@
    }
}

/// The all-zero register file a snapshot starts from.
pub open spec fn zero_regs() -> Seq<usize> {
    Seq::new(21, |i: int| 0usize)
}

/// First entry argument forwarded by the trampoline (slot x19).
pub open spec fn boot_arg1(regs: Seq<usize>) -> usize {
    regs[SLOT_ARG1 as int]
}

/// Second entry argument forwarded by the trampoline (slot x20).
pub open spec fn boot_arg2(regs: Seq<usize>) -> usize {
    regs[SLOT_ARG2 as int]
}

/// Entry function address the trampoline calls (slot x21).
pub open spec fn boot_entry(regs: Seq<usize>) -> usize {
    regs[SLOT_ENTRY as int]
}

/// Saved frame pointer.
pub open spec fn saved_fp(regs: Seq<usize>) -> usize {
    regs[SLOT_FP as int]
}

/// Saved link register: where a switch into this file transfers control.
pub open spec fn saved_lr(regs: Seq<usize>) -> usize {
    regs[SLOT_LR as int]
}

/// Saved stack pointer.
pub open spec fn saved_sp(regs: Seq<usize>) -> usize {
    regs[SLOT_SP as int]
}

/// `addr` rounded down to the 16-byte stack alignment the calling convention
/// demands of any live stack pointer.
pub open spec fn align16(addr: int) -> int {
    addr - addr % 16
}

impl Registers {
    pub fn new() -> (r: Registers)
        ensures
            r@ == zero_regs(),
    {
        let r = Registers { regs: [0; 21] };
        proof {
            assert(r.regs@ =~= zero_regs());
        }
        r
    }
}

/// Round an address down to the architecture's required 16-byte stack
/// alignment. Using an unaligned initial stack pointer is undefined behaviour
/// under the calling convention, so every address derived from a stack's top
/// passes through here first.
pub fn align_down(addr: usize) -> (r: usize)
    ensures
        r == align16(addr as int),
        r <= addr,
        r % 16 == 0,
{
    let r = addr & !15;
    proof {
        assert(addr & !15usize == addr - addr % 16) by (bit_vector);
    }
    r
}

/// The register file of a freshly initialized call frame: the two entry
/// arguments and the entry address parked in the trampoline's scratch slots,
/// frame and stack pointer at the aligned stack top `sp`, the link register
/// aimed at the trampoline, and every other callee-saved slot zero.
pub open spec fn initialized_frame(
    fptr: usize,
    arg: usize,
    arg2: usize,
    sp: usize,
    trampoline: usize,
) -> Seq<usize> {
    Seq::new(21, |i: int|
        if i == SLOT_ARG1 {
            arg
        } else if i == SLOT_ARG2 {
            arg2
        } else if i == SLOT_ENTRY {
            fptr
        } else if i == SLOT_FP {
            sp
        } else if i == SLOT_LR {
            trampoline
        } else if i == SLOT_SP {
            sp
        } else {
            0usize
        })
}

/// Populate `regs` so that a switch into it behaves as a fresh call of the
/// bootstrap trampoline on `stack`: control lands at `trampoline` with the
/// stack pointer at the aligned top of `stack`, and the scratch slots carry
/// `arg`, `arg2` and the entry address `fptr` for the trampoline to forward.
/// `fptr`, `arg2` and `trampoline` are machine addresses handled as plain
/// words; the entry function itself is never called through this library.
pub fn initialize_call_frame(
    regs: &mut Registers,
    fptr: usize,
    arg: usize,
    arg2: usize,
    stack: &Stack,
    trampoline: usize,
)
    ensures
        final(regs)@ == initialized_frame(
            fptr,
            arg,
            arg2,
            align16(stack.top as int) as usize,
            trampoline,
        ),
{
    // The aligned top of the stack: the frame's initial stack pointer.
    let sp = align_down(stack.end());

    // Arguments and entry address go to the trampoline's scratch slots
    // (x19..x21); they survive the first switch because the trampoline, not
    // the swap routine, consumes them.
    regs.regs[SLOT_ARG1] = arg;
    regs.regs[SLOT_ARG2] = arg2;
    regs.regs[SLOT_ENTRY] = fptr;

    // Frame pointer and stack pointer both start at the aligned top; the
    // link register aims the first switch at the bootstrap trampoline.
    regs.regs[SLOT_FP] = sp;
    regs.regs[SLOT_LR] = trampoline;
    regs.regs[SLOT_SP] = sp;

    // The remaining callee-saved general registers (x22..x28) start at zero.
    let mut i: usize = 3;
    while i <= 9
        invariant
            3 <= i <= 10,
            regs@.len() == 21,
            regs@[SLOT_ARG1 as int] == arg,
            regs@[SLOT_ARG2 as int] == arg2,
            regs@[SLOT_ENTRY as int] == fptr,
            regs@[SLOT_FP as int] == sp,
            regs@[SLOT_LR as int] == trampoline,
            regs@[SLOT_SP as int] == sp,
            forall|j: int| 3 <= j < i ==> regs@[j] == 0usize,
            forall|j: int| 13 <= j < 21 ==> regs@[j] == old(regs)@[j],
        decreases 10 - i,
    {
        regs.regs[i] = 0;
        i = i + 1;
    }

    // The callee-saved floating-point slots (d8..d15) start at zero as well.
    let mut k: usize = SLOT_FPR_FIRST;
    while k <= 20
        invariant
            13 <= k <= 21,
            regs@.len() == 21,
            regs@[SLOT_ARG1 as int] == arg,
            regs@[SLOT_ARG2 as int] == arg2,
            regs@[SLOT_ENTRY as int] == fptr,
            regs@[SLOT_FP as int] == sp,
            regs@[SLOT_LR as int] == trampoline,
            regs@[SLOT_SP as int] == sp,
            forall|j: int| 3 <= j < 10 ==> regs@[j] == 0usize,
            forall|j: int| 13 <= j < k ==> regs@[j] == 0usize,
        decreases 21 - k,
    {
        regs.regs[k] = 0;
        k = k + 1;
    }

    proof {
        assert(regs@ =~= initialized_frame(
            fptr,
            arg,
            arg2,
            align16(stack.top as int) as usize,
            trampoline,
        ));
    }
}

} // verus!
