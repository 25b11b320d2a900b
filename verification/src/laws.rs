//! Laws that relate several execution steps, stated over the same step
//! relation that `execute_next_opcode` ensures and proved once and for
//! all machine states.

use vstd::prelude::*;
use crate::memory::spec_fetch;
use crate::opcode::{spec_decode, Instr};
use crate::vm::{Chip8, NUM_REGISTERS, NUM_KEYS};
use crate::exec::{step_spec, exec_error, first_pressed_from, lemma_first_pressed_from_props};

verus! {

/// A subroutine call followed immediately by a return comes back to
/// exactly the address after the call site, with the stack pointer,
/// registers and index register as they were before the call.
pub proof fn lemma_call_then_return(s0: Chip8, s1: Chip8, s2: Chip8)
    requires
        s0.wf(),
        exec_error(s0) is None,
        spec_decode(spec_fetch(s0.ram(), s0.registers.pc)) is Call,
        step_spec(s0, s1),
        exec_error(s1) is None,
        spec_decode(spec_fetch(s1.ram(), s1.registers.pc)) is Return,
        step_spec(s1, s2),
    ensures
        s2.registers.pc == s0.registers.pc + 2,
        s2.stack.sp == s0.stack.sp,
        s2.registers.i == s0.registers.i,
        s2.registers.v@ == s0.registers.v@,
{
    assert(s1.stack.ret_addresses@[s0.stack.sp as int] == (s0.registers.pc + 2) as u16);
}

/// A register-block spill followed immediately by a register-block load
/// for the same index range and memory base round-trips the register
/// file exactly, and neither step moves the index register.
pub proof fn lemma_spill_then_load(s0: Chip8, s1: Chip8, s2: Chip8, x: u8)
    requires
        s0.wf(),
        s1.wf(),
        exec_error(s0) is None,
        spec_decode(spec_fetch(s0.ram(), s0.registers.pc)) matches Instr::SpillRegs { x: x0 }
            && x0 == x,
        step_spec(s0, s1),
        exec_error(s1) is None,
        spec_decode(spec_fetch(s1.ram(), s1.registers.pc)) matches Instr::LoadRegs { x: x1 }
            && x1 == x,
        step_spec(s1, s2),
    ensures
        s2.registers.v@ == s0.registers.v@,
        s1.registers.i == s0.registers.i,
        s2.registers.i == s1.registers.i,
{
    let i = s0.registers.i as int;
    assert forall|r: int| 0 <= r < NUM_REGISTERS implies s2.registers.v@[r]
        == s0.registers.v@[r] by {
        if r <= x {
            assert(s1.memory.ram@[i + r] == s0.registers.v@[r]);
        }
    }
    assert(s2.registers.v@ =~= s0.registers.v@);
}

/// While the key-wait instruction is at the program counter and no key
/// at all is held, a step leaves the whole machine as it was — in
/// particular the program counter does not advance, however many such
/// steps are taken.
pub proof fn lemma_wait_key_blocks(s0: Chip8, s1: Chip8)
    requires
        s0.wf(),
        exec_error(s0) is None,
        spec_decode(spec_fetch(s0.ram(), s0.registers.pc)) is WaitKey,
        forall|k: int| 0 <= k < NUM_KEYS ==> !s0.keys()[k],
        step_spec(s0, s1),
    ensures
        s1.registers.pc == s0.registers.pc,
        s1.registers.i == s0.registers.i,
        s1.registers.v@ == s0.registers.v@,
        s1.memory.ram@ == s0.memory.ram@,
        s1.stack.ret_addresses@ == s0.stack.ret_addresses@,
        s1.stack.sp == s0.stack.sp,
        s1.input.keys@ == s0.input.keys@,
        s1.display.screen@ == s0.display.screen@,
        s1.timers == s0.timers,
{
    lemma_first_pressed_from_props(s0.keys(), 0);
    if first_pressed_from(s0.keys(), 0) < 16 {
        assert(s0.keys()[first_pressed_from(s0.keys(), 0)]);
    }
}

/// On the first step of the key-wait instruction with at least one key
/// held, the program counter advances by exactly two and the
/// destination register receives the lowest-indexed held key.
pub proof fn lemma_wait_key_releases(s0: Chip8, s1: Chip8, k: int)
    requires
        s0.wf(),
        exec_error(s0) is None,
        spec_decode(spec_fetch(s0.ram(), s0.registers.pc)) is WaitKey,
        0 <= k < NUM_KEYS,
        s0.keys()[k],
        forall|j: int| 0 <= j < k ==> !s0.keys()[j],
        step_spec(s0, s1),
    ensures
        s1.registers.pc == s0.registers.pc + 2,
        spec_decode(spec_fetch(s0.ram(), s0.registers.pc)) matches Instr::WaitKey { x }
            ==> s1.regs()[x as int] == k,
{
    lemma_first_pressed_from_props(s0.keys(), 0);
    let f = first_pressed_from(s0.keys(), 0);
    if f > k {
        assert(!s0.keys()[k]);
    }
    if f < k {
        assert(!s0.keys()[f]);
    }
    assert(f == k);
}

} // verus!
