use generator::registers::{align_down, initialize_call_frame, Registers};
use generator::stack::Stack;
use generator::switch::{bootstrap_dispatch, swap_registers};

#[test]
fn align_down_exact_values() {
    assert_eq!(align_down(0), 0);
    assert_eq!(align_down(15), 0);
    assert_eq!(align_down(16), 16);
    assert_eq!(align_down(0x10012), 0x10010);
    assert_eq!(align_down(0x11000), 0x11000);
    assert_eq!(align_down(usize::MAX), usize::MAX - 15);
}

#[test]
fn registers_start_zeroed() {
    let r = Registers::new();
    assert_eq!(r.regs, [0usize; 21]);
}

#[test]
fn call_frame_slots_are_populated() {
    let stack = Stack::new(0x1000, 0x11007, 0x1000, 0x1000);
    let mut regs = Registers { regs: [7; 21] };
    initialize_call_frame(&mut regs, 0x9000, 0x1111, 0x2000, &stack, 0x8000);

    // arguments and entry address in the trampoline's scratch slots
    assert_eq!(regs.regs[0], 0x1111);
    assert_eq!(regs.regs[1], 0x2000);
    assert_eq!(regs.regs[2], 0x9000);
    // frame pointer and stack pointer at the aligned stack top
    assert_eq!(regs.regs[10], 0x11000);
    assert_eq!(regs.regs[12], 0x11000);
    // link register aimed at the trampoline
    assert_eq!(regs.regs[11], 0x8000);
    // every other callee-saved slot zeroed, even on a dirty register file
    for i in 3..10 {
        assert_eq!(regs.regs[i], 0);
    }
    for i in 13..21 {
        assert_eq!(regs.regs[i], 0);
    }
}

#[test]
fn swap_saves_and_loads_whole_files() {
    let mut machine = Registers { regs: [0; 21] };
    for (i, slot) in machine.regs.iter_mut().enumerate() {
        *slot = 100 + i;
    }
    let before = machine;
    let mut target = Registers { regs: [0; 21] };
    for (i, slot) in target.regs.iter_mut().enumerate() {
        *slot = 900 + i;
    }

    let mut saved = Registers::new();
    swap_registers(&mut machine, &mut saved, &target);
    assert_eq!(saved.regs, before.regs);
    assert_eq!(machine.regs, target.regs);
}

#[test]
fn switch_round_trip_restores_every_slot() {
    let mut machine = Registers { regs: [0; 21] };
    for (i, slot) in machine.regs.iter_mut().enumerate() {
        *slot = 41 * i + 3;
    }
    let before = machine;

    let stack = Stack::new(0x1000, 0x11000, 0x1000, 0x1000);
    let mut fresh = Registers::new();
    initialize_call_frame(&mut fresh, 0x9000, 1, 2, &stack, 0x8000);

    let mut saved_a = Registers::new();
    let mut saved_b = Registers::new();
    swap_registers(&mut machine, &mut saved_a, &fresh);
    swap_registers(&mut machine, &mut saved_b, &saved_a);

    assert_eq!(machine.regs, before.regs);
    assert_eq!(saved_b.regs, fresh.regs);
}

#[test]
fn fresh_switch_delivers_entry_and_args() {
    let stack = Stack::new(0x1000, 0x11000, 0x1000, 0x1000);
    let mut fresh = Registers::new();
    initialize_call_frame(&mut fresh, 0x9000, 0x1111, 0x2222, &stack, 0x8000);

    let mut machine = Registers { regs: [5; 21] };
    let mut saved = Registers::new();
    swap_registers(&mut machine, &mut saved, &fresh);

    // control lands at the trampoline, on the fresh aligned stack
    assert_eq!(machine.regs[11], 0x8000);
    assert_eq!(machine.regs[12], 0x11000);
    // and the trampoline forwards exactly the two initialization arguments
    let (entry, a1, a2) = bootstrap_dispatch(&machine);
    assert_eq!(entry, 0x9000);
    assert_eq!(a1, 0x1111);
    assert_eq!(a2, 0x2222);
}

#[test]
fn scenario_entry_writes_arg_into_buffer() {
    // A 64KB stack; arg1 = 0x1111; arg2 stands for the address of a one-word
    // buffer. Switch in, let the entry body write arg1 into the buffer and
    // switch back; the caller observes the buffer holding 0x1111 and its own
    // register state intact.
    let mut buffer = [0usize; 1];
    let buffer_token: usize = 0x2000;

    let stack = Stack::new(0x40000, 0x50000, 0x40000, 0x1000);
    let mut fresh = Registers::new();
    initialize_call_frame(&mut fresh, 0x9000, 0x1111, buffer_token, &stack, 0x8000);

    let mut machine = Registers { regs: [9; 21] };
    let caller_state = machine;
    let mut caller_saved = Registers::new();
    swap_registers(&mut machine, &mut caller_saved, &fresh);

    // the coroutine body: receives (arg1, arg2) from the trampoline and
    // writes arg1 through the buffer arg2 designates, then switches back
    let (_entry, a1, a2) = bootstrap_dispatch(&machine);
    assert_eq!(a2, buffer_token);
    buffer[0] = a1;
    let mut coroutine_saved = Registers::new();
    swap_registers(&mut machine, &mut coroutine_saved, &caller_saved);

    assert_eq!(buffer[0], 0x1111);
    assert_eq!(machine.regs, caller_state.regs);
}
