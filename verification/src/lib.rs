//! A verified CHIP-8 style virtual machine: a fixed-instruction-set
//! processor with 4 KiB of memory, sixteen 8-bit registers, a bounded call
//! stack, a 64x32 monochrome framebuffer, two countdown timers and a 16-key
//! input latch.  The execution engine fetches, decodes and executes one
//! big-endian 16-bit instruction word per step.

use vstd::prelude::*;

pub mod font;
pub mod keymap;
pub mod memory;
pub mod opcode;
pub mod alu;
pub mod vm;
pub mod exec;
pub mod laws;
pub mod state;
mod rng;

verus! {

/// The load-time and fatal execution errors of the machine.
///
/// `OversizeProgram` is reported when a program image does not fit in the
/// memory past the program base address.  The remaining variants harden the
/// conditions that the emulated hardware left undefined: they are reported
/// instead of touching memory, the call stack or the key latch out of
/// bounds, and they leave the machine unchanged.
#[derive(Clone, Copy, PartialEq, Eq, Structural, Debug)]
pub enum Chip8Error {
    /// The program image exceeds the memory capacity past the base address.
    OversizeProgram,
    /// The program counter does not address two bytes of memory.
    PcOutOfBounds,
    /// A return was executed with an empty call stack.
    StackUnderflow,
    /// A subroutine call was executed with a full call stack.
    StackOverflow,
    /// An instruction would read or write memory beyond its capacity.
    AddressOutOfBounds,
    /// A key-state test named a key index outside the 16-key latch.
    KeyOutOfRange,
}

} // verus!
