//! A compact machine state with a 2 KiB byte store and an explicit
//! reset: construction and reset perform the identical zero-and-reload
//! sequence, so reset can be called at any time to return the machine to
//! its just-constructed state (the program image excepted, which must be
//! reloaded).

use vstd::prelude::*;
use vstd::pervasive::VecAdditionalExecFns;
use crate::font::{font_seq, font_bytes, FONT_SIZE};
use crate::vm::filled;

verus! {

/// Capacity of the compact byte store.
pub const STATE_MEMORY_SIZE: usize = 2048;

/// First address of the glyph table in the compact store.
pub const STATE_FONT_BASE: usize = 0x50;

/// The compact byte store.
pub struct Memory {
    pub ram: Vec<u8>,
}

impl Memory {
    /// The store always holds exactly `STATE_MEMORY_SIZE` bytes.
    pub open spec fn wf(self) -> bool {
        self.ram@.len() == STATE_MEMORY_SIZE
    }

    /// A zeroed store.
    pub fn new() -> (m: Memory)
        ensures
            m.wf(),
            forall|a: int| 0 <= a < STATE_MEMORY_SIZE ==> m.ram@[a] == 0u8,
    {
        Memory { ram: filled(STATE_MEMORY_SIZE, 0u8) }
    }

    /// Copies the built-in glyph table into the reserved region
    /// `[STATE_FONT_BASE, STATE_FONT_BASE + FONT_SIZE)`; every other
    /// byte is kept.
    pub fn load_font_into_memory(&mut self)
        requires
            old(self).wf(),
        ensures
            final(self).wf(),
            forall|k: int|
                0 <= k < FONT_SIZE ==> final(self).ram@[STATE_FONT_BASE + k] == font_seq()[k],
            forall|a: int|
                0 <= a < STATE_MEMORY_SIZE && !(STATE_FONT_BASE <= a < STATE_FONT_BASE
                    + FONT_SIZE) ==> final(self).ram@[a] == old(self).ram@[a],
    {
        let font = font_bytes();
        let mut k: usize = 0;
        while k < FONT_SIZE
            invariant
                k <= FONT_SIZE,
                self.ram@.len() == STATE_MEMORY_SIZE,
                font@ == font_seq(),
                forall|j: int| 0 <= j < k ==> self.ram@[STATE_FONT_BASE + j] == font_seq()[j],
                forall|a: int|
                    0 <= a < STATE_MEMORY_SIZE && !(STATE_FONT_BASE <= a < STATE_FONT_BASE + k)
                        ==> self.ram@[a] == old(self).ram@[a],
            decreases FONT_SIZE - k,
        {
            self.ram.set(STATE_FONT_BASE + k, font[k]);
            k += 1;
        }
    }
}

/// Program counter, index register and the sixteen 8-bit registers of
/// the compact state.
pub struct Registers {
    pub pc: u16,
    pub index: u16,
    pub v: Vec<u8>,
}

/// The return-address stack of the compact state.
pub struct Stack {
    pub stack: Vec<u16>,
    pub sp: u16,
}

/// The key latch of the compact state, one byte per key.
pub struct Input {
    pub keys: Vec<u8>,
}

/// The framebuffer of the compact state, row-major 64x32.
pub struct Display {
    pub screen: Vec<bool>,
}

/// The compact machine state.
pub struct State {
    pub memory: Memory,
    pub registers: Registers,
    pub stack: Stack,
    pub input: Input,
    pub display: Display,
}

impl State {
    /// All fixed-capacity parts have their capacity.
    pub open spec fn wf(self) -> bool {
        &&& self.memory.wf()
        &&& self.registers.v@.len() == 16
        &&& self.stack.stack@.len() == 16
        &&& self.input.keys@.len() == 16
        &&& self.display.screen@.len() == 2048
    }

    /// The just-reset state: everything zeroed but for the glyph table,
    /// and the program counter at the program start address.
    pub open spec fn is_reset(self) -> bool {
        &&& self.wf()
        &&& self.registers.pc == 0x200
        &&& self.registers.index == 0
        &&& forall|r: int| 0 <= r < 16 ==> self.registers.v@[r] == 0u8
        &&& forall|k: int|
            0 <= k < FONT_SIZE ==> self.memory.ram@[STATE_FONT_BASE + k] == font_seq()[k]
        &&& forall|a: int|
            0 <= a < STATE_MEMORY_SIZE && !(STATE_FONT_BASE <= a < STATE_FONT_BASE + FONT_SIZE)
                ==> self.memory.ram@[a] == 0u8
        &&& forall|s: int| 0 <= s < 16 ==> self.stack.stack@[s] == 0u16
        &&& self.stack.sp == 0
        &&& forall|k: int| 0 <= k < 16 ==> self.input.keys@[k] == 0u8
        &&& forall|p: int| 0 <= p < 2048 ==> !self.display.screen@[p]
    }

    /// A compact state in its reset configuration, glyph table loaded
    /// and program counter at the program start address.
    pub fn new_and_init() -> (s: State)
        ensures
            s.is_reset(),
    {
        let mut state = State {
            memory: Memory::new(),
            registers: Registers { pc: 0x200, index: 0, v: filled(16, 0u8) },
            stack: Stack { stack: filled(16, 0u16), sp: 0 },
            input: Input { keys: filled(16, 0u8) },
            display: Display { screen: filled(2048, false) },
        };
        state.reset();
        state
    }

    /// Returns the machine to its just-constructed state: zeroes memory,
    /// registers, stack, input and framebuffer, restores the program
    /// counter and reloads the glyph table.  The outcome is the same
    /// whatever the state was, so resetting twice is the same as
    /// resetting once.
    pub fn reset(&mut self)
        requires
            old(self).wf(),
        ensures
            final(self).is_reset(),
    {
        self.memory.ram = filled(STATE_MEMORY_SIZE, 0u8);
        self.registers.pc = 0x200;
        self.registers.index = 0;
        self.registers.v = filled(16, 0u8);
        self.stack.stack = filled(16, 0u16);
        self.stack.sp = 0;
        self.input.keys = filled(16, 0u8);
        self.display.screen = filled(2048, false);
        self.memory.load_font_into_memory();
    }
}

} // verus!
