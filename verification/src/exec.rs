//! Instruction execution: the specification of one fetch-decode-execute
//! step, the error conditions under which a step is refused, and the
//! verified `execute_next_opcode` itself.

use vstd::prelude::*;
use vstd::pervasive::VecAdditionalExecFns;
use vstd::arithmetic::div_mod::{
    lemma_fundamental_div_mod, lemma_mod_multiples_vanish, lemma_small_mod,
};
use crate::memory::{spec_fetch, MEMORY_SIZE, FONT_BASE};
use crate::opcode::{spec_decode, decode_opcode, Instr};
use crate::vm::{
    Chip8, same_memory, same_i, same_v, same_stack, same_input, same_display, same_timers,
    same_rng, frame_registers, NUM_REGISTERS, NUM_KEYS, STACK_DEPTH, SCREEN_WIDTH,
    SCREEN_HEIGHT, SCREEN_CELLS,
};
use crate::alu::{
    wrapping_add_byte, add_with_carry, sub_with_borrow, shift_right_with_flag,
    shift_left_with_flag, bcd_digits,
};
use crate::Chip8Error;

verus! {

/// The index of the lowest-numbered held key at or above position `j`,
/// or 16 when none is held there.
pub open spec fn first_pressed_from(keys: Seq<bool>, j: int) -> int
    decreases 16 - j when 0 <= j <= 16
{
    if j >= 16 {
        16
    } else if keys[j] {
        j
    } else {
        first_pressed_from(keys, j + 1)
    }
}

/// Whether bit `c` of a sprite row is set, bit 0 being the leftmost
/// pixel of the row.
pub open spec fn sprite_row_bit(row: u8, c: u8) -> bool {
    row & (0x80u8 >> c) != 0
}

/// Whether the sprite of `n` rows held at `base` in `ram`, blitted at
/// origin `(vx, vy)` with per-pixel wraparound, covers the pixel
/// `(px, py)` with a set sprite bit.
pub open spec fn overlay_bit(
    ram: Seq<u8>,
    base: int,
    vx: int,
    vy: int,
    n: int,
    px: int,
    py: int,
) -> bool {
    let c = (px - vx) % (SCREEN_WIDTH as int);
    let r = (py - vy) % (SCREEN_HEIGHT as int);
    c < 8 && r < n && sprite_row_bit(ram[base + r], c as u8)
}

/// Whether blitting the sprite onto `screen` sets any pixel that is
/// already set: the strict, bit-level collision rule.
pub open spec fn draw_collision(
    ram: Seq<u8>,
    screen: Seq<bool>,
    base: int,
    vx: int,
    vy: int,
    n: int,
) -> bool {
    exists|px: int, py: int|
        0 <= px < SCREEN_WIDTH && 0 <= py < SCREEN_HEIGHT
            && overlay_bit(ram, base, vx, vy, n, px, py)
            && screen[py * SCREEN_WIDTH + px]
}

/// The fatal condition one execution step of `s` runs into, if any:
/// these are the conditions the emulated hardware left undefined, and
/// the step reports them instead of touching state out of bounds.
pub open spec fn exec_error(s: Chip8) -> Option<Chip8Error> {
    if s.registers.pc as int + 1 >= MEMORY_SIZE {
        Some(Chip8Error::PcOutOfBounds)
    } else {
        let i = s.registers.i as int;
        match spec_decode(spec_fetch(s.ram(), s.registers.pc)) {
            Instr::Return => if s.stack.sp == 0 {
                Some(Chip8Error::StackUnderflow)
            } else {
                None
            },
            Instr::Call { nnn } => if s.stack.sp >= STACK_DEPTH {
                Some(Chip8Error::StackOverflow)
            } else {
                None
            },
            Instr::Draw { x, y, n } => if n > 0 && i + n > MEMORY_SIZE {
                Some(Chip8Error::AddressOutOfBounds)
            } else {
                None
            },
            Instr::StoreBcd { x } => if i + 3 > MEMORY_SIZE {
                Some(Chip8Error::AddressOutOfBounds)
            } else {
                None
            },
            Instr::SpillRegs { x } => if i + x + 1 > MEMORY_SIZE {
                Some(Chip8Error::AddressOutOfBounds)
            } else {
                None
            },
            Instr::LoadRegs { x } => if i + x + 1 > MEMORY_SIZE {
                Some(Chip8Error::AddressOutOfBounds)
            } else {
                None
            },
            Instr::SkipIfKey { x } => if s.regs()[x as int] as int >= NUM_KEYS {
                Some(Chip8Error::KeyOutOfRange)
            } else {
                None
            },
            Instr::SkipIfNotKey { x } => if s.regs()[x as int] as int >= NUM_KEYS {
                Some(Chip8Error::KeyOutOfRange)
            } else {
                None
            },
            _ => None,
        }
    }
}

/// How one error-free execution step relates the pre-state to the
/// post-state, one case per decoded instruction of the fetched word.
/// Only the step on a random instruction is a true relation: the drawn
/// byte is existentially quantified and the randomness source itself is
/// unconstrained afterwards.
pub open spec fn step_spec(pre: Chip8, post: Chip8) -> bool {
    let op = spec_fetch(pre.ram(), pre.registers.pc);
    let pc = pre.registers.pc as int;
    let v = pre.registers.v@;
    let i = pre.registers.i as int;
    match spec_decode(op) {
        Instr::ClearScreen => {
            &&& post.display.screen@.len() == SCREEN_CELLS
            &&& forall|p: int| 0 <= p < SCREEN_CELLS ==> !post.display.screen@[p]
            &&& post.display.needs_draw == true
            &&& post.registers.pc == pc + 2
            &&& same_i(pre, post) && same_v(pre, post)
            &&& same_memory(pre, post) && same_stack(pre, post) && same_input(pre, post)
            &&& same_timers(pre, post) && same_rng(pre, post)
        },
        Instr::Return => {
            &&& post.registers.pc == pre.stack.ret_addresses@[pre.stack.sp - 1]
            &&& post.stack.sp == pre.stack.sp - 1
            &&& post.stack.ret_addresses@ == pre.stack.ret_addresses@
            &&& same_i(pre, post) && same_v(pre, post)
            &&& same_memory(pre, post) && same_input(pre, post) && same_display(pre, post)
            &&& same_timers(pre, post) && same_rng(pre, post)
        },
        Instr::Jump { nnn } => {
            &&& post.registers.pc == nnn
            &&& same_i(pre, post) && same_v(pre, post)
            &&& frame_registers(pre, post)
        },
        Instr::Call { nnn } => {
            &&& post.stack.ret_addresses@
                == pre.stack.ret_addresses@.update(pre.stack.sp as int, (pc + 2) as u16)
            &&& post.stack.sp == pre.stack.sp + 1
            &&& post.registers.pc == nnn
            &&& same_i(pre, post) && same_v(pre, post)
            &&& same_memory(pre, post) && same_input(pre, post) && same_display(pre, post)
            &&& same_timers(pre, post) && same_rng(pre, post)
        },
        Instr::SkipEqImm { x, kk } => {
            &&& post.registers.pc == if v[x as int] == kk { pc + 4 } else { pc + 2 }
            &&& same_i(pre, post) && same_v(pre, post)
            &&& frame_registers(pre, post)
        },
        Instr::SkipNeImm { x, kk } => {
            &&& post.registers.pc == if v[x as int] != kk { pc + 4 } else { pc + 2 }
            &&& same_i(pre, post) && same_v(pre, post)
            &&& frame_registers(pre, post)
        },
        Instr::SkipEqReg { x, y } => {
            &&& post.registers.pc == if v[x as int] == v[y as int] { pc + 4 } else { pc + 2 }
            &&& same_i(pre, post) && same_v(pre, post)
            &&& frame_registers(pre, post)
        },
        Instr::SkipNeReg { x, y } => {
            &&& post.registers.pc == if v[x as int] != v[y as int] { pc + 4 } else { pc + 2 }
            &&& same_i(pre, post) && same_v(pre, post)
            &&& frame_registers(pre, post)
        },
        Instr::SetImm { x, kk } => {
            &&& post.registers.v@ == v.update(x as int, kk)
            &&& post.registers.pc == pc + 2
            &&& same_i(pre, post)
            &&& frame_registers(pre, post)
        },
        Instr::AddImm { x, kk } => {
            &&& post.registers.v@ == v.update(x as int, ((v[x as int] + kk) % 256) as u8)
            &&& post.registers.pc == pc + 2
            &&& same_i(pre, post)
            &&& frame_registers(pre, post)
        },
        Instr::Copy { x, y } => {
            &&& post.registers.v@ == v.update(x as int, v[y as int])
            &&& post.registers.pc == pc + 2
            &&& same_i(pre, post)
            &&& frame_registers(pre, post)
        },
        Instr::Or { x, y } => {
            &&& post.registers.v@ == v.update(x as int, v[x as int] | v[y as int])
            &&& post.registers.pc == pc + 2
            &&& same_i(pre, post)
            &&& frame_registers(pre, post)
        },
        Instr::And { x, y } => {
            &&& post.registers.v@ == v.update(x as int, v[x as int] & v[y as int])
            &&& post.registers.pc == pc + 2
            &&& same_i(pre, post)
            &&& frame_registers(pre, post)
        },
        Instr::Xor { x, y } => {
            &&& post.registers.v@ == v.update(x as int, v[x as int] ^ v[y as int])
            &&& post.registers.pc == pc + 2
            &&& same_i(pre, post)
            &&& frame_registers(pre, post)
        },
        Instr::AddCarry { x, y } => {
            &&& post.registers.v@ == v.update(
                x as int,
                ((v[x as int] + v[y as int]) % 256) as u8,
            ).update(15, if v[x as int] + v[y as int] >= 256 { 1u8 } else { 0u8 })
            &&& post.registers.pc == pc + 2
            &&& same_i(pre, post)
            &&& frame_registers(pre, post)
        },
        Instr::SubBorrow { x, y } => {
            &&& post.registers.v@ == v.update(
                15,
                if v[x as int] >= v[y as int] { 1u8 } else { 0u8 },
            ).update(
                x as int,
                if v[x as int] >= v[y as int] {
                    (v[x as int] - v[y as int]) as u8
                } else {
                    (v[x as int] - v[y as int] + 256) as u8
                },
            )
            &&& post.registers.pc == pc + 2
            &&& same_i(pre, post)
            &&& frame_registers(pre, post)
        },
        Instr::ShiftRight { x } => {
            &&& post.registers.v@ == v.update(15, (v[x as int] % 2) as u8).update(
                x as int,
                (v[x as int] / 2) as u8,
            )
            &&& post.registers.pc == pc + 2
            &&& same_i(pre, post)
            &&& frame_registers(pre, post)
        },
        Instr::SubReverse { x, y } => {
            &&& post.registers.v@ == v.update(
                15,
                if v[y as int] >= v[x as int] { 1u8 } else { 0u8 },
            ).update(
                x as int,
                if v[y as int] >= v[x as int] {
                    (v[y as int] - v[x as int]) as u8
                } else {
                    (v[y as int] - v[x as int] + 256) as u8
                },
            )
            &&& post.registers.pc == pc + 2
            &&& same_i(pre, post)
            &&& frame_registers(pre, post)
        },
        Instr::ShiftLeft { x } => {
            &&& post.registers.v@ == v.update(15, (v[x as int] / 128) as u8).update(
                x as int,
                ((2 * v[x as int]) % 256) as u8,
            )
            &&& post.registers.pc == pc + 2
            &&& same_i(pre, post)
            &&& frame_registers(pre, post)
        },
        Instr::SetIndex { nnn } => {
            &&& post.registers.i == nnn
            &&& post.registers.pc == pc + 2
            &&& same_v(pre, post)
            &&& frame_registers(pre, post)
        },
        Instr::JumpPlusV0 { nnn } => {
            &&& post.registers.pc == nnn + v[0]
            &&& same_i(pre, post) && same_v(pre, post)
            &&& frame_registers(pre, post)
        },
        Instr::Random { x, kk } => {
            &&& exists|b: u8| post.registers.v@ == v.update(x as int, b & kk)
            &&& post.registers.pc == pc + 2
            &&& same_i(pre, post)
            &&& same_memory(pre, post) && same_stack(pre, post) && same_input(pre, post)
            &&& same_display(pre, post) && same_timers(pre, post)
        },
        Instr::Draw { x, y, n } => {
            let vx = v[x as int] as int;
            let vy = v[y as int] as int;
            &&& post.display.screen@.len() == SCREEN_CELLS
            &&& forall|px: int, py: int|
                0 <= px < SCREEN_WIDTH && 0 <= py < SCREEN_HEIGHT
                    ==> post.pixel(px, py) == (pre.pixel(px, py) != #[trigger] overlay_bit(
                        pre.ram(), i, vx, vy, n as int, px, py,
                    ))
            &&& post.display.needs_draw == true
            &&& post.registers.v@ == v.update(
                15,
                if draw_collision(pre.ram(), pre.screen(), i, vx, vy, n as int) {
                    1u8
                } else {
                    0u8
                },
            )
            &&& post.registers.pc == pc + 2
            &&& same_i(pre, post)
            &&& same_memory(pre, post) && same_stack(pre, post) && same_input(pre, post)
            &&& same_timers(pre, post) && same_rng(pre, post)
        },
        Instr::SkipIfKey { x } => {
            &&& post.registers.pc == if pre.keys()[v[x as int] as int] { pc + 4 } else { pc + 2 }
            &&& same_i(pre, post) && same_v(pre, post)
            &&& frame_registers(pre, post)
        },
        Instr::SkipIfNotKey { x } => {
            &&& post.registers.pc == if !pre.keys()[v[x as int] as int] { pc + 4 } else { pc + 2 }
            &&& same_i(pre, post) && same_v(pre, post)
            &&& frame_registers(pre, post)
        },
        Instr::ReadDelay { x } => {
            &&& post.registers.v@ == v.update(x as int, pre.timers.delay_timer)
            &&& post.registers.pc == pc + 2
            &&& same_i(pre, post)
            &&& frame_registers(pre, post)
        },
        Instr::WaitKey { x } => {
            let k = first_pressed_from(pre.keys(), 0);
            if k == 16 {
                &&& post.registers.pc == pre.registers.pc
                &&& same_i(pre, post) && same_v(pre, post)
                &&& frame_registers(pre, post)
            } else {
                &&& post.registers.pc == pc + 2
                &&& post.registers.v@ == v.update(x as int, k as u8)
                &&& same_i(pre, post)
                &&& frame_registers(pre, post)
            }
        },
        Instr::SetDelay { x } => {
            &&& post.timers.delay_timer == v[x as int]
            &&& post.timers.sound_timer == pre.timers.sound_timer
            &&& post.registers.pc == pc + 2
            &&& same_i(pre, post) && same_v(pre, post)
            &&& same_memory(pre, post) && same_stack(pre, post) && same_input(pre, post)
            &&& same_display(pre, post) && same_rng(pre, post)
        },
        Instr::SetSound { x } => {
            &&& post.timers.sound_timer == v[x as int]
            &&& post.timers.delay_timer == pre.timers.delay_timer
            &&& post.registers.pc == pc + 2
            &&& same_i(pre, post) && same_v(pre, post)
            &&& same_memory(pre, post) && same_stack(pre, post) && same_input(pre, post)
            &&& same_display(pre, post) && same_rng(pre, post)
        },
        Instr::AddIndex { x } => {
            &&& post.registers.i == (i + v[x as int]) % 0x1000
            &&& post.registers.v@ == v.update(
                15,
                if i + v[x as int] > 0xFFF { 1u8 } else { 0u8 },
            )
            &&& post.registers.pc == pc + 2
            &&& frame_registers(pre, post)
        },
        Instr::GlyphAddr { x } => {
            &&& post.registers.i == FONT_BASE + 5 * v[x as int]
            &&& post.registers.pc == pc + 2
            &&& same_v(pre, post)
            &&& frame_registers(pre, post)
        },
        Instr::StoreBcd { x } => {
            let vx = v[x as int];
            &&& post.memory.ram@ == pre.memory.ram@.update(i, vx / 100).update(
                i + 1,
                (vx / 10) % 10,
            ).update(i + 2, vx % 10)
            &&& post.registers.pc == pc + 2
            &&& same_i(pre, post) && same_v(pre, post)
            &&& same_stack(pre, post) && same_input(pre, post) && same_display(pre, post)
            &&& same_timers(pre, post) && same_rng(pre, post)
        },
        Instr::SpillRegs { x } => {
            &&& post.memory.ram@.len() == MEMORY_SIZE
            &&& forall|a: int|
                0 <= a < MEMORY_SIZE ==> post.memory.ram@[a] == if i <= a <= i + x {
                    v[a - i]
                } else {
                    pre.memory.ram@[a]
                }
            &&& post.registers.pc == pc + 2
            &&& same_i(pre, post) && same_v(pre, post)
            &&& same_stack(pre, post) && same_input(pre, post) && same_display(pre, post)
            &&& same_timers(pre, post) && same_rng(pre, post)
        },
        Instr::LoadRegs { x } => {
            &&& post.registers.v@.len() == NUM_REGISTERS
            &&& forall|r: int|
                0 <= r < NUM_REGISTERS ==> post.registers.v@[r] == if r <= x {
                    pre.memory.ram@[i + r]
                } else {
                    v[r]
                }
            &&& post.registers.pc == pc + 2
            &&& same_i(pre, post)
            &&& frame_registers(pre, post)
        },
        Instr::Unknown => {
            &&& post.registers.pc == pc + 2
            &&& same_i(pre, post) && same_v(pre, post)
            &&& frame_registers(pre, post)
        },
    }
}

/// The search for the lowest held key, started anywhere, finds the same
/// key as long as every key below the start is released.
proof fn lemma_first_pressed_prefix(keys: Seq<bool>, k: int)
    requires
        keys.len() == 16,
        0 <= k <= 16,
        forall|j: int| 0 <= j < k ==> !keys[j],
    ensures
        first_pressed_from(keys, 0) == first_pressed_from(keys, k),
    decreases k,
{
    if k > 0 {
        lemma_first_pressed_prefix(keys, k - 1);
    }
}

/// What the lowest-held-key search returns: a held key with every lower
/// key released, or 16 exactly when no key at all is held.
pub proof fn lemma_first_pressed_from_props(keys: Seq<bool>, j: int)
    requires
        keys.len() == 16,
        0 <= j <= 16,
    ensures
        j <= first_pressed_from(keys, j) <= 16,
        first_pressed_from(keys, j) < 16 ==> keys[first_pressed_from(keys, j)],
        forall|t: int| j <= t < first_pressed_from(keys, j) ==> !keys[t],
        first_pressed_from(keys, j) == 16 ==> forall|t: int| j <= t < 16 ==> !keys[t],
    decreases 16 - j,
{
    if j < 16 && !keys[j] {
        lemma_first_pressed_from_props(keys, j + 1);
    }
}

/// The index of the lowest-numbered held key, or 16 when none is held.
fn first_pressed(keys: &Vec<bool>) -> (r: u8)
    requires
        keys@.len() == NUM_KEYS,
    ensures
        r == first_pressed_from(keys@, 0),
{
    let mut k: usize = 0;
    while k < NUM_KEYS
        invariant
            keys@.len() == NUM_KEYS,
            k <= NUM_KEYS,
            forall|j: int| 0 <= j < k ==> !keys@[j],
        decreases NUM_KEYS - k,
    {
        if keys[k] {
            proof {
                lemma_first_pressed_prefix(keys@, k as int);
            }
            return k as u8;
        }
        k += 1;
    }
    proof {
        lemma_first_pressed_prefix(keys@, 16);
    }
    16
}

impl Chip8 {
    /// Copies registers 0 through `x` inclusive into memory starting at
    /// the index address; the index register itself is unchanged.
    fn op_spill(&mut self, x: usize)
        requires
            old(self).wf(),
            x < NUM_REGISTERS,
            old(self).registers.i as int + x + 1 <= MEMORY_SIZE,
        ensures
            final(self).wf(),
            final(self).memory.ram@.len() == MEMORY_SIZE,
            forall|a: int|
                0 <= a < MEMORY_SIZE ==> final(self).memory.ram@[a]
                    == if old(self).registers.i <= a <= old(self).registers.i + x {
                    old(self).registers.v@[a - old(self).registers.i]
                } else {
                    old(self).memory.ram@[a]
                },
            final(self).registers == old(self).registers,
            final(self).stack == old(self).stack,
            final(self).input == old(self).input,
            final(self).display == old(self).display,
            final(self).timers == old(self).timers,
            final(self).rng == old(self).rng,
    {
        let i = self.registers.i as usize;
        let mut k: usize = 0;
        while k <= x
            invariant
                k <= x + 1,
                x < NUM_REGISTERS,
                i == old(self).registers.i,
                i + x + 1 <= MEMORY_SIZE,
                self.memory.ram@.len() == MEMORY_SIZE,
                self.registers.v@.len() == NUM_REGISTERS,
                self.registers == old(self).registers,
                self.stack == old(self).stack,
                self.input == old(self).input,
                self.display == old(self).display,
                self.timers == old(self).timers,
                self.rng == old(self).rng,
                forall|a: int|
                    0 <= a < MEMORY_SIZE ==> self.memory.ram@[a] == if i <= a < i + k {
                        old(self).registers.v@[a - i]
                    } else {
                        old(self).memory.ram@[a]
                    },
            decreases x + 1 - k,
        {
            let value = self.registers.v[k];
            self.memory.ram.set(i + k, value);
            k += 1;
        }
    }

    /// Copies memory starting at the index address into registers 0
    /// through `x` inclusive; the index register itself is unchanged.
    fn op_load(&mut self, x: usize)
        requires
            old(self).wf(),
            x < NUM_REGISTERS,
            old(self).registers.i as int + x + 1 <= MEMORY_SIZE,
        ensures
            final(self).wf(),
            final(self).registers.v@.len() == NUM_REGISTERS,
            forall|r: int|
                0 <= r < NUM_REGISTERS ==> final(self).registers.v@[r] == if r <= x {
                    old(self).memory.ram@[old(self).registers.i + r]
                } else {
                    old(self).registers.v@[r]
                },
            final(self).registers.pc == old(self).registers.pc,
            final(self).registers.i == old(self).registers.i,
            final(self).memory == old(self).memory,
            final(self).stack == old(self).stack,
            final(self).input == old(self).input,
            final(self).display == old(self).display,
            final(self).timers == old(self).timers,
            final(self).rng == old(self).rng,
    {
        let i = self.registers.i as usize;
        let mut k: usize = 0;
        while k <= x
            invariant
                k <= x + 1,
                x < NUM_REGISTERS,
                i == old(self).registers.i,
                i + x + 1 <= MEMORY_SIZE,
                self.memory.ram@.len() == MEMORY_SIZE,
                self.registers.v@.len() == NUM_REGISTERS,
                self.registers.pc == old(self).registers.pc,
                self.registers.i == old(self).registers.i,
                self.memory == old(self).memory,
                self.stack == old(self).stack,
                self.input == old(self).input,
                self.display == old(self).display,
                self.timers == old(self).timers,
                self.rng == old(self).rng,
                forall|r: int|
                    0 <= r < NUM_REGISTERS ==> self.registers.v@[r] == if r < k {
                        old(self).memory.ram@[i + r]
                    } else {
                        old(self).registers.v@[r]
                    },
            decreases x + 1 - k,
        {
            let value = self.memory.ram[i + k];
            self.registers.v.set(k, value);
            k += 1;
        }
    }

    /// Writes the decimal digits of register `x` at the index address:
    /// hundreds, tens and ones at consecutive addresses.
    fn op_store_bcd(&mut self, x: usize)
        requires
            old(self).wf(),
            x < NUM_REGISTERS,
            old(self).registers.i as int + 3 <= MEMORY_SIZE,
        ensures
            final(self).wf(),
            final(self).memory.ram@ == old(self).memory.ram@.update(
                old(self).registers.i as int,
                old(self).registers.v@[x as int] / 100,
            ).update(
                old(self).registers.i as int + 1,
                (old(self).registers.v@[x as int] / 10) % 10,
            ).update(old(self).registers.i as int + 2, old(self).registers.v@[x as int] % 10),
            final(self).registers == old(self).registers,
            final(self).stack == old(self).stack,
            final(self).input == old(self).input,
            final(self).display == old(self).display,
            final(self).timers == old(self).timers,
            final(self).rng == old(self).rng,
    {
        let i = self.registers.i as usize;
        let vx = self.registers.v[x];
        let (hundreds, tens, ones) = bcd_digits(vx);
        self.memory.ram.set(i, hundreds);
        self.memory.ram.set(i + 1, tens);
        self.memory.ram.set(i + 2, ones);
    }
}

/// The overlay of a partially blitted sprite: the first `r` rows whole,
/// plus the first `c` columns of row `r`.
spec fn partial_overlay(
    ram: Seq<u8>,
    base: int,
    vx: int,
    vy: int,
    r: int,
    c: int,
    px: int,
    py: int,
) -> bool {
    overlay_bit(ram, base, vx, vy, r, px, py) || {
        let cc = (px - vx) % (SCREEN_WIDTH as int);
        (py - vy) % (SCREEN_HEIGHT as int) == r && cc < c && sprite_row_bit(
            ram[base + r],
            cc as u8,
        )
    }
}

/// Unwrapping a wrapped coordinate: for an offset `c` below the modulus,
/// the wrapped position `(v + c) % m` recovers `c`.
proof fn lemma_mod_unwrap(v: int, c: int, m: int)
    requires
        0 < m,
        0 <= c < m,
    ensures
        ((v + c) % m - v) % m == c,
{
    let s = (v + c) % m;
    let q = (v + c) / m;
    lemma_fundamental_div_mod(v + c, m);
    assert(s - v == c - m * q);
    lemma_mod_multiples_vanish(-q, c, m);
    assert(m * (-q) + c == c - m * q) by (nonlinear_arith);
    lemma_small_mod(c as nat, m as nat);
}

/// Wrapping an unwrapped coordinate: for a position `p` below the
/// modulus, the offset `(p - v) % m` wraps back to `p`.
proof fn lemma_mod_wrap(v: int, p: int, m: int)
    requires
        0 < m,
        0 <= p < m,
    ensures
        (v + (p - v) % m) % m == p,
{
    let c = (p - v) % m;
    let q = (p - v) / m;
    lemma_fundamental_div_mod(p - v, m);
    assert(v + c == p - m * q);
    lemma_mod_multiples_vanish(-q, p, m);
    assert(m * (-q) + p == p - m * q) by (nonlinear_arith);
    lemma_small_mod(p as nat, m as nat);
}

/// Finishing a sprite row extends the collision test by exactly that
/// row's eight columns.
proof fn lemma_collision_row_done(
    ram: Seq<u8>,
    screen: Seq<bool>,
    base: int,
    vx: int,
    vy: int,
    r: int,
)
    requires
        0 <= vx,
        0 <= vy,
        0 <= r < SCREEN_HEIGHT,
        screen.len() == SCREEN_CELLS,
    ensures
        draw_collision(ram, screen, base, vx, vy, r + 1) == (draw_collision(
            ram,
            screen,
            base,
            vx,
            vy,
            r,
        ) || exists|cc: int|
            0 <= cc < 8 && #[trigger] sprite_row_bit(ram[base + r], cc as u8) && screen[((vy + r) % (
            SCREEN_HEIGHT as int)) * SCREEN_WIDTH + (vx + cc) % (SCREEN_WIDTH as int)]),
{
    let w = SCREEN_WIDTH as int;
    let h = SCREEN_HEIGHT as int;
    let sy = (vy + r) % h;
    if draw_collision(ram, screen, base, vx, vy, r) {
        let (px, py) = choose|px: int, py: int|
            0 <= px < w && 0 <= py < h && #[trigger] overlay_bit(ram, base, vx, vy, r, px, py)
                && #[trigger] screen[py * w + px];
        assert(overlay_bit(ram, base, vx, vy, r + 1, px, py));
        assert(draw_collision(ram, screen, base, vx, vy, r + 1));
    }
    if exists|cc: int|
        0 <= cc < 8 && #[trigger] sprite_row_bit(ram[base + r], cc as u8) && screen[sy * w + (vx + cc) % w] {
        let cc = choose|cc: int|
            0 <= cc < 8 && #[trigger] sprite_row_bit(ram[base + r], cc as u8) && screen[sy * w + (vx + cc)
                % w];
        let px = (vx + cc) % w;
        lemma_mod_unwrap(vx, cc, w);
        lemma_mod_unwrap(vy, r, h);
        assert(overlay_bit(ram, base, vx, vy, r + 1, px, sy));
        assert(draw_collision(ram, screen, base, vx, vy, r + 1));
    }
    if draw_collision(ram, screen, base, vx, vy, r + 1) {
        let (px, py) = choose|px: int, py: int|
            0 <= px < w && 0 <= py < h && #[trigger] overlay_bit(ram, base, vx, vy, r + 1, px, py)
                && #[trigger] screen[py * w + px];
        let c2 = (px - vx) % w;
        let r2 = (py - vy) % h;
        if r2 < r {
            assert(overlay_bit(ram, base, vx, vy, r, px, py));
            assert(draw_collision(ram, screen, base, vx, vy, r));
        } else {
            assert(r2 == r);
            lemma_mod_wrap(vx, px, w);
            lemma_mod_wrap(vy, py, h);
            assert(py == sy);
            assert((vx + c2) % w == px);
            assert(0 <= c2 < 8 && sprite_row_bit(ram[base + r], c2 as u8) && screen[sy * w + (vx
                + c2) % w]);
        }
    }
}

impl Chip8 {
    /// Blits the `n`-row sprite held at the index address onto the
    /// screen at `(Vx, Vy)`: each sprite bit is XOR-composited with the
    /// pixel it covers, both axes wrapping per pixel, the redraw flag is
    /// raised, and the flag register records whether any set sprite bit
    /// covered an already-set pixel.
    fn op_draw(&mut self, x: usize, y: usize, n: u8)
        requires
            old(self).wf(),
            x < NUM_REGISTERS,
            y < NUM_REGISTERS,
            n < 16,
            n > 0 ==> old(self).registers.i as int + n <= MEMORY_SIZE,
        ensures
            final(self).wf(),
            final(self).display.screen@.len() == SCREEN_CELLS,
            forall|px: int, py: int|
                0 <= px < SCREEN_WIDTH && 0 <= py < SCREEN_HEIGHT ==> final(self).pixel(px, py)
                    == (old(self).pixel(px, py) != #[trigger] overlay_bit(
                    old(self).ram(),
                    old(self).registers.i as int,
                    old(self).regs()[x as int] as int,
                    old(self).regs()[y as int] as int,
                    n as int,
                    px,
                    py,
                )),
            final(self).display.needs_draw == true,
            final(self).registers.v@ == old(self).registers.v@.update(
                15,
                if draw_collision(
                    old(self).ram(),
                    old(self).screen(),
                    old(self).registers.i as int,
                    old(self).regs()[x as int] as int,
                    old(self).regs()[y as int] as int,
                    n as int,
                ) {
                    1u8
                } else {
                    0u8
                },
            ),
            final(self).registers.pc == old(self).registers.pc,
            final(self).registers.i == old(self).registers.i,
            final(self).memory == old(self).memory,
            final(self).stack == old(self).stack,
            final(self).input == old(self).input,
            final(self).timers == old(self).timers,
            final(self).rng == old(self).rng,
    {
        let vx = self.registers.v[x] as usize;
        let vy = self.registers.v[y] as usize;
        let base = self.registers.i as usize;
        let nn = n as usize;
        let ghost ram0 = self.memory.ram@;
        let ghost screen0 = self.display.screen@;
        let mut collision = false;
        proof {
            assert forall|px: int, py: int|
                0 <= px < SCREEN_WIDTH && 0 <= py < SCREEN_HEIGHT implies self.display.screen@[py
                * SCREEN_WIDTH + px] == (screen0[py * SCREEN_WIDTH + px] != #[trigger] overlay_bit(
                ram0,
                base as int,
                vx as int,
                vy as int,
                0,
                px,
                py,
            )) by {
                assert(!overlay_bit(ram0, base as int, vx as int, vy as int, 0, px, py));
            }
            assert(!draw_collision(ram0, screen0, base as int, vx as int, vy as int, 0)) by {
                if draw_collision(ram0, screen0, base as int, vx as int, vy as int, 0) {
                    let (px, py) = choose|px: int, py: int|
                        0 <= px < SCREEN_WIDTH && 0 <= py < SCREEN_HEIGHT && #[trigger] overlay_bit(
                            ram0,
                            base as int,
                            vx as int,
                            vy as int,
                            0,
                            px,
                            py,
                        ) && #[trigger] screen0[py * SCREEN_WIDTH + px];
                    assert(false);
                }
            }
        }
        let mut r: usize = 0;
        while r < nn
            invariant
                r <= nn,
                nn == n,
                n < 16,
                x < NUM_REGISTERS,
                y < NUM_REGISTERS,
                vx == old(self).regs()[x as int],
                vx < 256,
                vy == old(self).regs()[y as int],
                vy < 256,
                base == old(self).registers.i,
                nn > 0 ==> base + nn <= MEMORY_SIZE,
                ram0 == old(self).memory.ram@,
                ram0.len() == MEMORY_SIZE,
                screen0 == old(self).display.screen@,
                screen0.len() == SCREEN_CELLS,
                self.memory == old(self).memory,
                self.registers == old(self).registers,
                self.registers.v@.len() == NUM_REGISTERS,
                self.stack == old(self).stack,
                self.input == old(self).input,
                self.timers == old(self).timers,
                self.rng == old(self).rng,
                self.display.needs_draw == old(self).display.needs_draw,
                self.display.screen@.len() == SCREEN_CELLS,
                forall|px: int, py: int|
                    0 <= px < SCREEN_WIDTH && 0 <= py < SCREEN_HEIGHT ==> self.display.screen@[py
                        * SCREEN_WIDTH + px] == (screen0[py * SCREEN_WIDTH + px] != #[trigger] overlay_bit(
                        ram0,
                        base as int,
                        vx as int,
                        vy as int,
                        r as int,
                        px,
                        py,
                    )),
                collision == draw_collision(
                    ram0,
                    screen0,
                    base as int,
                    vx as int,
                    vy as int,
                    r as int,
                ),
            decreases nn - r,
        {
            let row = self.memory.ram[base + r];
            let sy = (vy + r) % SCREEN_HEIGHT;
            proof {
                lemma_mod_unwrap(vy as int, r as int, SCREEN_HEIGHT as int);
            }
            let mut c: usize = 0;
            while c < 8
                invariant
                    c <= 8,
                    r < nn,
                    nn == n,
                    n < 16,
                    vx < 256,
                    vy < 256,
                    base + nn <= MEMORY_SIZE,
                    ram0.len() == MEMORY_SIZE,
                    row == ram0[base + r],
                    sy == (vy + r) % (SCREEN_HEIGHT as int),
                    sy < SCREEN_HEIGHT,
                    (sy - vy) % (SCREEN_HEIGHT as int) == r,
                    screen0.len() == SCREEN_CELLS,
                    self.memory == old(self).memory,
                    self.registers == old(self).registers,
                    self.stack == old(self).stack,
                    self.input == old(self).input,
                    self.timers == old(self).timers,
                    self.rng == old(self).rng,
                    self.display.needs_draw == old(self).display.needs_draw,
                    self.display.screen@.len() == SCREEN_CELLS,
                    forall|px: int, py: int|
                        0 <= px < SCREEN_WIDTH && 0 <= py < SCREEN_HEIGHT
                            ==> self.display.screen@[py * SCREEN_WIDTH + px] == (screen0[py
                            * SCREEN_WIDTH + px] != #[trigger] partial_overlay(
                            ram0,
                            base as int,
                            vx as int,
                            vy as int,
                            r as int,
                            c as int,
                            px,
                            py,
                        )),
                    collision == (draw_collision(
                        ram0,
                        screen0,
                        base as int,
                        vx as int,
                        vy as int,
                        r as int,
                    ) || exists|cc: int|
                        0 <= cc < c && #[trigger] sprite_row_bit(row, cc as u8) && screen0[sy * (
                        SCREEN_WIDTH as int) + (vx + cc) % (SCREEN_WIDTH as int)]),
                decreases 8 - c,
            {
                let bit = (row & (0x80u8 >> (c as u8))) > 0;
                let sx = (vx + c) % SCREEN_WIDTH;
                let idx = sy * SCREEN_WIDTH + sx;
                let cur = self.display.screen[idx];
                proof {
                    lemma_mod_unwrap(vx as int, c as int, SCREEN_WIDTH as int);
                    assert((sx - vx) % (SCREEN_WIDTH as int) == c);
                    assert(!partial_overlay(
                        ram0,
                        base as int,
                        vx as int,
                        vy as int,
                        r as int,
                        c as int,
                        sx as int,
                        sy as int,
                    ));
                    assert(cur == screen0[sy * (SCREEN_WIDTH as int) + sx]);
                }
                if bit {
                    if cur {
                        collision = true;
                    }
                    self.display.screen.set(idx, !cur);
                }
                proof {
                    let w = SCREEN_WIDTH as int;
                    let h = SCREEN_HEIGHT as int;
                    assert forall|px: int, py: int|
                        0 <= px < w && 0 <= py < h implies self.display.screen@[py * w + px] == (
                    screen0[py * w + px] != #[trigger] partial_overlay(
                        ram0,
                        base as int,
                        vx as int,
                        vy as int,
                        r as int,
                        c + 1,
                        px,
                        py,
                    )) by {
                        lemma_mod_wrap(vx as int, px, w);
                        lemma_mod_wrap(vy as int, py, h);
                        if py * w + px != sy * w + sx {
                            assert(self.display.screen@[py * w + px] == (screen0[py * w + px]
                                != #[trigger] partial_overlay(
                                ram0,
                                base as int,
                                vx as int,
                                vy as int,
                                r as int,
                                c as int,
                                px,
                                py,
                            )));
                        }
                    }
                    let cb = sprite_row_bit(row, c as u8) && screen0[sy * w + (vx + c as int)
                        % w];
                    if cb {
                        assert(exists|cc: int|
                            0 <= cc < c + 1 && #[trigger] sprite_row_bit(row, cc as u8) && screen0[sy * w + (
                            vx + cc) % w]);
                    } else {
                        if exists|cc: int|
                            0 <= cc < c + 1 && #[trigger] sprite_row_bit(row, cc as u8) && screen0[sy * w + (
                            vx + cc) % w] {
                            let cc = choose|cc: int|
                                0 <= cc < c + 1 && #[trigger] sprite_row_bit(row, cc as u8) && screen0[sy * w
                                    + (vx + cc) % w];
                            assert(cc < c);
                        }
                    }
                }
                c += 1;
            }
            proof {
                let w = SCREEN_WIDTH as int;
                let h = SCREEN_HEIGHT as int;
                assert forall|px: int, py: int|
                    0 <= px < w && 0 <= py < h implies self.display.screen@[py * w + px] == (
                screen0[py * w + px] != #[trigger] overlay_bit(
                    ram0,
                    base as int,
                    vx as int,
                    vy as int,
                    r as int + 1,
                    px,
                    py,
                )) by {
                    assert(self.display.screen@[py * w + px] == (screen0[py * w + px]
                        != partial_overlay(
                        ram0,
                        base as int,
                        vx as int,
                        vy as int,
                        r as int,
                        8,
                        px,
                        py,
                    )));
                }
                lemma_collision_row_done(
                    ram0,
                    screen0,
                    base as int,
                    vx as int,
                    vy as int,
                    r as int,
                );
            }
            r += 1;
        }
        self.registers.v.set(15, if collision { 1 } else { 0 });
        self.display.needs_draw = true;
    }

    /// Advances the machine by exactly one instruction: fetches the
    /// big-endian word at the program counter, advances or redirects the
    /// program counter, and executes the instruction's effect as
    /// [`step_spec`] states it.  The fatal conditions of [`exec_error`]
    /// are reported instead, if and only if they hold, and leave the
    /// machine exactly as it was.
    pub fn execute_next_opcode(&mut self) -> (r: Result<(), Chip8Error>)
        requires
            old(self).wf(),
        ensures
            final(self).wf(),
            match exec_error(*old(self)) {
                Some(e) => r == Err::<(), Chip8Error>(e) && *final(self) == *old(self),
                None => r == Ok::<(), Chip8Error>(()) && step_spec(*old(self), *final(self)),
            },
    {
        if self.registers.pc as usize + 1 >= MEMORY_SIZE {
            return Err(Chip8Error::PcOutOfBounds);
        }
        let opcode = self.memory.read_unsigned_short(self.registers.pc);
        let pc2 = self.registers.pc + 2;
        match decode_opcode(opcode) {
            Instr::ClearScreen => {
                self.display.screen = crate::vm::filled(SCREEN_CELLS, false);
                self.display.needs_draw = true;
                self.registers.pc = pc2;
                Ok(())
            },
            Instr::Return => {
                if self.stack.sp == 0 {
                    return Err(Chip8Error::StackUnderflow);
                }
                self.stack.sp = self.stack.sp - 1;
                self.registers.pc = self.stack.ret_addresses[self.stack.sp as usize];
                Ok(())
            },
            Instr::Jump { nnn } => {
                self.registers.pc = nnn;
                Ok(())
            },
            Instr::Call { nnn } => {
                if self.stack.sp as usize >= STACK_DEPTH {
                    return Err(Chip8Error::StackOverflow);
                }
                self.stack.ret_addresses.set(self.stack.sp as usize, pc2);
                self.stack.sp = self.stack.sp + 1;
                self.registers.pc = nnn;
                Ok(())
            },
            Instr::SkipEqImm { x, kk } => {
                self.registers.pc = if self.registers.v[x as usize] == kk {
                    pc2 + 2
                } else {
                    pc2
                };
                Ok(())
            },
            Instr::SkipNeImm { x, kk } => {
                self.registers.pc = if self.registers.v[x as usize] != kk {
                    pc2 + 2
                } else {
                    pc2
                };
                Ok(())
            },
            Instr::SkipEqReg { x, y } => {
                self.registers.pc = if self.registers.v[x as usize] == self.registers.v[
                    y as usize
                ] {
                    pc2 + 2
                } else {
                    pc2
                };
                Ok(())
            },
            Instr::SkipNeReg { x, y } => {
                self.registers.pc = if self.registers.v[x as usize] != self.registers.v[
                    y as usize
                ] {
                    pc2 + 2
                } else {
                    pc2
                };
                Ok(())
            },
            Instr::SetImm { x, kk } => {
                self.registers.v.set(x as usize, kk);
                self.registers.pc = pc2;
                Ok(())
            },
            Instr::AddImm { x, kk } => {
                let value = wrapping_add_byte(self.registers.v[x as usize], kk);
                self.registers.v.set(x as usize, value);
                self.registers.pc = pc2;
                Ok(())
            },
            Instr::Copy { x, y } => {
                let value = self.registers.v[y as usize];
                self.registers.v.set(x as usize, value);
                self.registers.pc = pc2;
                Ok(())
            },
            Instr::Or { x, y } => {
                let value = self.registers.v[x as usize] | self.registers.v[y as usize];
                self.registers.v.set(x as usize, value);
                self.registers.pc = pc2;
                Ok(())
            },
            Instr::And { x, y } => {
                let value = self.registers.v[x as usize] & self.registers.v[y as usize];
                self.registers.v.set(x as usize, value);
                self.registers.pc = pc2;
                Ok(())
            },
            Instr::Xor { x, y } => {
                let value = self.registers.v[x as usize] ^ self.registers.v[y as usize];
                self.registers.v.set(x as usize, value);
                self.registers.pc = pc2;
                Ok(())
            },
            Instr::AddCarry { x, y } => {
                let (result, flag) = add_with_carry(
                    self.registers.v[x as usize],
                    self.registers.v[y as usize],
                );
                self.registers.v.set(x as usize, result);
                self.registers.v.set(15, flag);
                self.registers.pc = pc2;
                Ok(())
            },
            Instr::SubBorrow { x, y } => {
                let (result, flag) = sub_with_borrow(
                    self.registers.v[x as usize],
                    self.registers.v[y as usize],
                );
                self.registers.v.set(15, flag);
                self.registers.v.set(x as usize, result);
                self.registers.pc = pc2;
                Ok(())
            },
            Instr::ShiftRight { x } => {
                let (result, flag) = shift_right_with_flag(self.registers.v[x as usize]);
                self.registers.v.set(15, flag);
                self.registers.v.set(x as usize, result);
                self.registers.pc = pc2;
                Ok(())
            },
            Instr::SubReverse { x, y } => {
                let (result, flag) = sub_with_borrow(
                    self.registers.v[y as usize],
                    self.registers.v[x as usize],
                );
                self.registers.v.set(15, flag);
                self.registers.v.set(x as usize, result);
                self.registers.pc = pc2;
                Ok(())
            },
            Instr::ShiftLeft { x } => {
                let (result, flag) = shift_left_with_flag(self.registers.v[x as usize]);
                self.registers.v.set(15, flag);
                self.registers.v.set(x as usize, result);
                self.registers.pc = pc2;
                Ok(())
            },
            Instr::SetIndex { nnn } => {
                self.registers.i = nnn;
                self.registers.pc = pc2;
                Ok(())
            },
            Instr::JumpPlusV0 { nnn } => {
                self.registers.pc = nnn + self.registers.v[0] as u16;
                Ok(())
            },
            Instr::Random { x, kk } => {
                let b = crate::rng::next_random_byte(&mut self.rng);
                let value = b & kk;
                self.registers.v.set(x as usize, value);
                self.registers.pc = pc2;
                proof {
                    assert(self.registers.v@ == old(self).registers.v@.update(
                        x as int,
                        b & kk,
                    ));
                }
                Ok(())
            },
            Instr::Draw { x, y, n } => {
                if n > 0 && self.registers.i as usize + n as usize > MEMORY_SIZE {
                    return Err(Chip8Error::AddressOutOfBounds);
                }
                self.registers.pc = pc2;
                self.op_draw(x as usize, y as usize, n);
                Ok(())
            },
            Instr::SkipIfKey { x } => {
                let vx = self.registers.v[x as usize];
                if vx as usize >= NUM_KEYS {
                    return Err(Chip8Error::KeyOutOfRange);
                }
                self.registers.pc = if self.input.keys[vx as usize] {
                    pc2 + 2
                } else {
                    pc2
                };
                Ok(())
            },
            Instr::SkipIfNotKey { x } => {
                let vx = self.registers.v[x as usize];
                if vx as usize >= NUM_KEYS {
                    return Err(Chip8Error::KeyOutOfRange);
                }
                self.registers.pc = if !self.input.keys[vx as usize] {
                    pc2 + 2
                } else {
                    pc2
                };
                Ok(())
            },
            Instr::ReadDelay { x } => {
                let value = self.timers.delay_timer;
                self.registers.v.set(x as usize, value);
                self.registers.pc = pc2;
                Ok(())
            },
            Instr::WaitKey { x } => {
                let k = first_pressed(&self.input.keys);
                proof {
                    lemma_first_pressed_from_props(self.input.keys@, 0);
                }
                if k < 16 {
                    self.registers.v.set(x as usize, k);
                    self.registers.pc = pc2;
                }
                Ok(())
            },
            Instr::SetDelay { x } => {
                self.timers.delay_timer = self.registers.v[x as usize];
                self.registers.pc = pc2;
                Ok(())
            },
            Instr::SetSound { x } => {
                self.timers.sound_timer = self.registers.v[x as usize];
                self.registers.pc = pc2;
                Ok(())
            },
            Instr::AddIndex { x } => {
                let sum = self.registers.i as u32 + self.registers.v[x as usize] as u32;
                let flag: u8 = if sum > 0xFFF {
                    1
                } else {
                    0
                };
                self.registers.i = (sum % 0x1000) as u16;
                self.registers.v.set(15, flag);
                self.registers.pc = pc2;
                Ok(())
            },
            Instr::GlyphAddr { x } => {
                let digit = self.registers.v[x as usize];
                self.registers.i = FONT_BASE as u16 + 5 * (digit as u16);
                self.registers.pc = pc2;
                Ok(())
            },
            Instr::StoreBcd { x } => {
                if self.registers.i as usize + 3 > MEMORY_SIZE {
                    return Err(Chip8Error::AddressOutOfBounds);
                }
                self.registers.pc = pc2;
                self.op_store_bcd(x as usize);
                Ok(())
            },
            Instr::SpillRegs { x } => {
                if self.registers.i as usize + x as usize + 1 > MEMORY_SIZE {
                    return Err(Chip8Error::AddressOutOfBounds);
                }
                self.registers.pc = pc2;
                self.op_spill(x as usize);
                Ok(())
            },
            Instr::LoadRegs { x } => {
                if self.registers.i as usize + x as usize + 1 > MEMORY_SIZE {
                    return Err(Chip8Error::AddressOutOfBounds);
                }
                self.registers.pc = pc2;
                self.op_load(x as usize);
                Ok(())
            },
            Instr::Unknown => {
                self.registers.pc = pc2;
                Ok(())
            },
        }
    }
}

} // verus!
