//! The machine state and its externally driven operations: construction,
//! program load, the timer tick, key input and the framebuffer and sound
//! views.  Instruction execution itself lives in the `exec` module.

use vstd::prelude::*;
use rand::rngs::StdRng;
use crate::memory::{Memory, MEMORY_SIZE, FONT_BASE, PROGRAM_BASE};
use crate::font::{font_seq, FONT_SIZE};
use crate::Chip8Error;

verus! {

/// Number of general-purpose registers; register 15 doubles as the
/// carry/borrow/collision flag.
pub const NUM_REGISTERS: usize = 16;

/// Depth of the call stack.
pub const STACK_DEPTH: usize = 16;

/// Number of keys in the input latch.
pub const NUM_KEYS: usize = 16;

/// Width of the framebuffer in pixels.
pub const SCREEN_WIDTH: usize = 64;

/// Height of the framebuffer in pixels.
pub const SCREEN_HEIGHT: usize = 32;

/// Number of framebuffer cells.
pub const SCREEN_CELLS: usize = SCREEN_WIDTH * SCREEN_HEIGHT;

/// Program counter, index register and the sixteen 8-bit registers.
pub struct Registers {
    pub pc: u16,
    pub i: u16,
    pub v: Vec<u8>,
}

/// The bounded return-address stack with its explicit pointer.
pub struct Stack {
    pub ret_addresses: Vec<u16>,
    pub sp: u8,
}

/// The 16-key input latch, mutated by the external driver only.
pub struct Input {
    pub keys: Vec<bool>,
}

/// The monochrome framebuffer, row-major: the cell for pixel `(x, y)` is
/// at index `y * SCREEN_WIDTH + x`.  `needs_draw` is raised by the two
/// instructions that change the picture.
pub struct Display {
    pub screen: Vec<bool>,
    pub needs_draw: bool,
}

/// The two 8-bit countdown timers, decremented only by the external tick.
pub struct Timers {
    pub delay_timer: u8,
    pub sound_timer: u8,
}

/// The whole machine.
pub struct Chip8 {
    pub memory: Memory,
    pub registers: Registers,
    pub stack: Stack,
    pub input: Input,
    pub display: Display,
    pub timers: Timers,
    pub rng: StdRng,
}

impl Chip8 {
    /// All fixed-capacity parts of the machine have their capacity, and
    /// the stack pointer stays within the stack.
    pub open spec fn wf(self) -> bool {
        &&& self.memory.wf()
        &&& self.registers.v@.len() == NUM_REGISTERS
        &&& self.stack.ret_addresses@.len() == STACK_DEPTH
        &&& self.stack.sp <= STACK_DEPTH
        &&& self.input.keys@.len() == NUM_KEYS
        &&& self.display.screen@.len() == SCREEN_CELLS
    }

    /// The memory contents.
    pub open spec fn ram(self) -> Seq<u8> {
        self.memory.ram@
    }

    /// The sixteen general registers.
    pub open spec fn regs(self) -> Seq<u8> {
        self.registers.v@
    }

    /// The key latch.
    pub open spec fn keys(self) -> Seq<bool> {
        self.input.keys@
    }

    /// The framebuffer cells.
    pub open spec fn screen(self) -> Seq<bool> {
        self.display.screen@
    }

    /// The pixel at `(x, y)`, both coordinates in range.
    pub open spec fn pixel(self, x: int, y: int) -> bool {
        self.display.screen@[y * SCREEN_WIDTH + x]
    }

    /// The just-constructed state: zeroed memory apart from the glyph
    /// table, program counter at the program base, and every register,
    /// stack slot, key, pixel and timer cleared.
    pub open spec fn is_initial(self) -> bool {
        &&& self.wf()
        &&& self.registers.pc == PROGRAM_BASE
        &&& self.registers.i == 0
        &&& forall|r: int| 0 <= r < NUM_REGISTERS ==> self.regs()[r] == 0u8
        &&& forall|k: int| 0 <= k < FONT_SIZE ==> self.ram()[FONT_BASE + k] == font_seq()[k]
        &&& forall|a: int|
            0 <= a < MEMORY_SIZE && !(FONT_BASE <= a < FONT_BASE + FONT_SIZE)
                ==> self.ram()[a] == 0u8
        &&& forall|s: int| 0 <= s < STACK_DEPTH ==> self.stack.ret_addresses@[s] == 0u16
        &&& self.stack.sp == 0
        &&& forall|k: int| 0 <= k < NUM_KEYS ==> !self.keys()[k]
        &&& forall|p: int| 0 <= p < SCREEN_CELLS ==> !self.screen()[p]
        &&& !self.display.needs_draw
        &&& self.timers.delay_timer == 0
        &&& self.timers.sound_timer == 0
    }
}

/// The memory contents are the same in both states.
pub open spec fn same_memory(pre: Chip8, post: Chip8) -> bool {
    post.memory.ram@ == pre.memory.ram@
}

/// The index register is the same in both states.
pub open spec fn same_i(pre: Chip8, post: Chip8) -> bool {
    post.registers.i == pre.registers.i
}

/// The general registers are the same in both states.
pub open spec fn same_v(pre: Chip8, post: Chip8) -> bool {
    post.registers.v@ == pre.registers.v@
}

/// The call stack, contents and pointer, is the same in both states.
pub open spec fn same_stack(pre: Chip8, post: Chip8) -> bool {
    post.stack.ret_addresses@ == pre.stack.ret_addresses@ && post.stack.sp == pre.stack.sp
}

/// The key latch is the same in both states.
pub open spec fn same_input(pre: Chip8, post: Chip8) -> bool {
    post.input.keys@ == pre.input.keys@
}

/// The framebuffer and its redraw flag are the same in both states.
pub open spec fn same_display(pre: Chip8, post: Chip8) -> bool {
    post.display.screen@ == pre.display.screen@
        && post.display.needs_draw == pre.display.needs_draw
}

/// Both timers are the same in both states.
pub open spec fn same_timers(pre: Chip8, post: Chip8) -> bool {
    post.timers.delay_timer == pre.timers.delay_timer
        && post.timers.sound_timer == pre.timers.sound_timer
}

/// The randomness source is the same in both states.
pub open spec fn same_rng(pre: Chip8, post: Chip8) -> bool {
    post.rng == pre.rng
}

/// Everything outside the register file (program counter, index register
/// and general registers) is the same in both states.
pub open spec fn frame_registers(pre: Chip8, post: Chip8) -> bool {
    &&& same_memory(pre, post)
    &&& same_stack(pre, post)
    &&& same_input(pre, post)
    &&& same_display(pre, post)
    &&& same_timers(pre, post)
    &&& same_rng(pre, post)
}

/// A vector of `n` copies of `value`.
pub(crate) fn filled<T: Copy>(n: usize, value: T) -> (v: Vec<T>)
    ensures
        v@.len() == n,
        forall|i: int| 0 <= i < n ==> v@[i] == value,
{
    let mut v: Vec<T> = Vec::new();
    let mut k: usize = 0;
    while k < n
        invariant
            k <= n,
            v@.len() == k,
            forall|i: int| 0 <= i < k ==> v@[i] == value,
        decreases n - k,
    {
        v.push(value);
        k += 1;
    }
    v
}

impl Chip8 {
    /// A machine seeded from the operating system's randomness source,
    /// pre-initialized with the glyph table loaded and the program
    /// counter at the program base address.
    pub fn new_and_init() -> (c: Chip8)
        ensures
            c.is_initial(),
    {
        Chip8::new_and_init_with_rng(crate::rng::entropy_rng())
    }

    /// A machine with an injected randomness source, pre-initialized with
    /// the glyph table loaded and the program counter at the program base
    /// address.
    pub fn new_and_init_with_rng(r: StdRng) -> (c: Chip8)
        ensures
            c.is_initial(),
    {
        let mut memory = Memory::new();
        memory.load_font_into_memory();
        Chip8 {
            memory,
            registers: Registers { pc: 0x200, i: 0, v: filled(NUM_REGISTERS, 0u8) },
            stack: Stack { ret_addresses: filled(STACK_DEPTH, 0u16), sp: 0 },
            input: Input { keys: filled(NUM_KEYS, false) },
            display: Display { screen: filled(SCREEN_CELLS, false), needs_draw: false },
            timers: Timers { delay_timer: 0, sound_timer: 0 },
            rng: r,
        }
    }

    /// Loads a program image at the program base address.  An image
    /// longer than the remaining capacity is rejected as
    /// `OversizeProgram` and the machine is left untouched; on success
    /// only the image region of memory changes.
    pub fn load_rom(&mut self, rom: &Vec<u8>) -> (r: Result<(), Chip8Error>)
        requires
            old(self).wf(),
        ensures
            final(self).wf(),
            r is Ok <==> rom@.len() <= MEMORY_SIZE - PROGRAM_BASE,
            r is Err ==> r == Err::<(), Chip8Error>(Chip8Error::OversizeProgram)
                && same_memory(*old(self), *final(self)),
            r is Ok ==> forall|k: int|
                0 <= k < rom@.len() ==> final(self).ram()[PROGRAM_BASE + k] == rom@[k],
            r is Ok ==> forall|a: int|
                0 <= a < MEMORY_SIZE && !(PROGRAM_BASE <= a < PROGRAM_BASE + rom@.len())
                    ==> final(self).ram()[a] == old(self).ram()[a],
            final(self).registers == old(self).registers,
            same_stack(*old(self), *final(self)),
            same_input(*old(self), *final(self)),
            same_display(*old(self), *final(self)),
            same_timers(*old(self), *final(self)),
            same_rng(*old(self), *final(self)),
    {
        self.memory.load_rom_into_memory(rom)
    }

    /// One external timer tick: decrements each timer by exactly one
    /// while it is positive and leaves it at zero otherwise, so neither
    /// timer ever goes below zero however often the tick is called.
    pub fn update_timers(&mut self)
        requires
            old(self).wf(),
        ensures
            final(self).wf(),
            final(self).timers.delay_timer == if old(self).timers.delay_timer > 0 {
                old(self).timers.delay_timer - 1
            } else {
                0
            },
            final(self).timers.sound_timer == if old(self).timers.sound_timer > 0 {
                old(self).timers.sound_timer - 1
            } else {
                0
            },
            final(self).memory == old(self).memory,
            final(self).registers == old(self).registers,
            final(self).stack == old(self).stack,
            final(self).input == old(self).input,
            final(self).display == old(self).display,
            same_rng(*old(self), *final(self)),
    {
        if self.timers.delay_timer > 0 {
            self.timers.delay_timer = self.timers.delay_timer - 1;
        }
        if self.timers.sound_timer > 0 {
            self.timers.sound_timer = self.timers.sound_timer - 1;
        }
    }

    /// A read-only view of the framebuffer cells, row-major.
    pub fn get_screen_ref(&self) -> (screen: &Vec<bool>)
        ensures
            screen@ == self.display.screen@,
    {
        &self.display.screen
    }

    /// Sets one key of the input latch.
    pub fn set_key_state(&mut self, key_index: u8, state: bool)
        requires
            old(self).wf(),
            key_index < NUM_KEYS,
        ensures
            final(self).wf(),
            final(self).keys() == old(self).keys().update(key_index as int, state),
            final(self).memory == old(self).memory,
            final(self).registers == old(self).registers,
            final(self).stack == old(self).stack,
            final(self).display == old(self).display,
            final(self).timers == old(self).timers,
            same_rng(*old(self), *final(self)),
    {
        self.input.keys.set(key_index as usize, state);
    }

    /// Whether a sound should currently be audible: exactly when the
    /// sound timer is positive.
    pub fn should_play_sound(&self) -> (active: bool)
        ensures
            active == (self.timers.sound_timer > 0),
    {
        self.timers.sound_timer > 0
    }
}

} // verus!
