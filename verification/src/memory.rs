//! The machine's flat byte-addressable memory: a fixed-capacity byte store
//! holding the glyph table in a reserved region and the program image past
//! the program base address.

use vstd::prelude::*;
use vstd::pervasive::VecAdditionalExecFns;
use crate::font::{font_seq, font_bytes, FONT_SIZE};
use crate::Chip8Error;

verus! {

/// Capacity of the memory in bytes.
pub const MEMORY_SIZE: usize = 4096;

/// First address of the built-in glyph table.
pub const FONT_BASE: usize = 0x50;

/// First address of a loaded program image; also the initial program
/// counter.
pub const PROGRAM_BASE: usize = 0x200;

/// The big-endian 16-bit word held at address `pos` of `ram`: the byte at
/// `pos` is the high byte, the byte at `pos + 1` the low byte.
pub open spec fn spec_fetch(ram: Seq<u8>, pos: u16) -> u16 {
    (ram[pos as int] * 256 + ram[pos as int + 1]) as u16
}

/// The byte store.
pub struct Memory {
    pub ram: Vec<u8>,
}

impl Memory {
    /// The memory always holds exactly `MEMORY_SIZE` bytes.
    pub open spec fn wf(self) -> bool {
        self.ram@.len() == MEMORY_SIZE
    }

    /// A zeroed memory.
    pub fn new() -> (m: Memory)
        ensures
            m.wf(),
            forall|a: int| 0 <= a < MEMORY_SIZE ==> m.ram@[a] == 0u8,
    {
        let mut ram: Vec<u8> = Vec::new();
        let mut k: usize = 0;
        while k < MEMORY_SIZE
            invariant
                k <= MEMORY_SIZE,
                ram@.len() == k,
                forall|a: int| 0 <= a < k ==> ram@[a] == 0u8,
            decreases MEMORY_SIZE - k,
        {
            ram.push(0u8);
            k += 1;
        }
        Memory { ram }
    }

    /// Copies the built-in glyph table into the reserved region
    /// `[FONT_BASE, FONT_BASE + FONT_SIZE)`; every other byte is kept.
    pub fn load_font_into_memory(&mut self)
        requires
            old(self).wf(),
        ensures
            final(self).wf(),
            forall|k: int| 0 <= k < FONT_SIZE ==> final(self).ram@[FONT_BASE + k] == font_seq()[k],
            forall|a: int|
                0 <= a < MEMORY_SIZE && !(FONT_BASE <= a < FONT_BASE + FONT_SIZE)
                    ==> final(self).ram@[a] == old(self).ram@[a],
    {
        let font = font_bytes();
        let mut k: usize = 0;
        while k < FONT_SIZE
            invariant
                k <= FONT_SIZE,
                self.ram@.len() == MEMORY_SIZE,
                font@ == font_seq(),
                forall|j: int| 0 <= j < k ==> self.ram@[FONT_BASE + j] == font_seq()[j],
                forall|a: int|
                    0 <= a < MEMORY_SIZE && !(FONT_BASE <= a < FONT_BASE + k)
                        ==> self.ram@[a] == old(self).ram@[a],
            decreases FONT_SIZE - k,
        {
            self.ram.set(FONT_BASE + k, font[k]);
            k += 1;
        }
    }

    /// Copies a program image verbatim to `[PROGRAM_BASE, PROGRAM_BASE +
    /// rom.len())`.  An image longer than the remaining capacity is
    /// rejected as `OversizeProgram` and the memory is left untouched; on
    /// success every byte outside the image region is kept.
    pub fn load_rom_into_memory(&mut self, rom: &Vec<u8>) -> (r: Result<(), Chip8Error>)
        requires
            old(self).wf(),
        ensures
            final(self).wf(),
            r is Ok <==> rom@.len() <= MEMORY_SIZE - PROGRAM_BASE,
            r is Err ==> r == Err::<(), Chip8Error>(Chip8Error::OversizeProgram)
                && final(self).ram@ == old(self).ram@,
            r is Ok ==> forall|k: int|
                0 <= k < rom@.len() ==> final(self).ram@[PROGRAM_BASE + k] == rom@[k],
            r is Ok ==> forall|a: int|
                0 <= a < MEMORY_SIZE && !(PROGRAM_BASE <= a < PROGRAM_BASE + rom@.len())
                    ==> final(self).ram@[a] == old(self).ram@[a],
    {
        if rom.len() > MEMORY_SIZE - PROGRAM_BASE {
            return Err(Chip8Error::OversizeProgram);
        }
        let mut k: usize = 0;
        while k < rom.len()
            invariant
                k <= rom@.len(),
                rom@.len() <= MEMORY_SIZE - PROGRAM_BASE,
                self.ram@.len() == MEMORY_SIZE,
                forall|j: int| 0 <= j < k ==> self.ram@[PROGRAM_BASE + j] == rom@[j],
                forall|a: int|
                    0 <= a < MEMORY_SIZE && !(PROGRAM_BASE <= a < PROGRAM_BASE + k)
                        ==> self.ram@[a] == old(self).ram@[a],
            decreases rom@.len() - k,
        {
            self.ram.set(PROGRAM_BASE + k, rom[k]);
            k += 1;
        }
        Ok(())
    }

    /// Reads the big-endian 16-bit word at `position`; instruction words
    /// are always fetched this way regardless of host endianness.
    pub fn read_unsigned_short(&self, position: u16) -> (word: u16)
        requires
            self.wf(),
            position as int + 1 < MEMORY_SIZE,
        ensures
            word == spec_fetch(self.ram@, position),
    {
        let msb = self.ram[position as usize];
        let lsb = self.ram[(position + 1) as usize];
        let word = ((msb as u16) << 8u16) | (lsb as u16);
        proof {
            assert(((msb as u16) << 8u16) | (lsb as u16) == msb as u16 * 256 + lsb as u16)
                by (bit_vector);
        }
        word
    }
}

} // verus!
