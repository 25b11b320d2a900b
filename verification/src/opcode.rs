//! Decoding of 16-bit instruction words.  An opcode is split into nibble
//! and byte fields, and every instruction form is decoded into one variant
//! of a tagged type, so that dispatch is an exhaustive match with a single
//! explicit fallback for unknown encodings.

use vstd::prelude::*;

verus! {

/// The low 12 bits of an opcode: an address operand.
pub open spec fn op_nnn(op: u16) -> int {
    op as int % 0x1000
}

/// The second-highest nibble: the index of register Vx.
pub open spec fn op_x(op: u16) -> int {
    (op as int / 0x100) % 16
}

/// The second-lowest nibble: the index of register Vy.
pub open spec fn op_y(op: u16) -> int {
    (op as int / 16) % 16
}

/// The low byte of an opcode: an 8-bit immediate operand.
pub open spec fn op_kk(op: u16) -> int {
    op as int % 256
}

/// The low nibble of an opcode.
pub open spec fn op_n(op: u16) -> int {
    op as int % 16
}

/// The high nibble of an opcode: the instruction class.
pub open spec fn op_hi(op: u16) -> int {
    op as int / 0x1000
}

/// The address operand of an opcode.
pub fn opcode_address(opcode: u16) -> (r: u16)
    ensures
        r == op_nnn(opcode),
{
    proof {
        assert(opcode & 0x0FFF == opcode % 0x1000) by (bit_vector);
    }
    opcode & 0x0FFF
}

/// The index of register Vx named by an opcode; always below 16.
pub fn opcode_register_vx(opcode: u16) -> (r: usize)
    ensures
        r == op_x(opcode),
        r < 16,
{
    proof {
        assert((opcode & 0x0F00) >> 8u16 == (opcode / 0x100) % 16) by (bit_vector);
    }
    ((opcode & 0x0F00) >> 8u16) as usize
}

/// The index of register Vy named by an opcode; always below 16.
pub fn opcode_register_vy(opcode: u16) -> (r: usize)
    ensures
        r == op_y(opcode),
        r < 16,
{
    proof {
        assert((opcode & 0x00F0) >> 4u16 == (opcode / 16) % 16) by (bit_vector);
    }
    ((opcode & 0x00F0) >> 4u16) as usize
}

/// The 8-bit immediate operand of an opcode.
pub fn opcode_operand(opcode: u16) -> (r: u8)
    ensures
        r == op_kk(opcode),
{
    proof {
        assert(opcode & 0x00FF == opcode % 256) by (bit_vector);
    }
    (opcode & 0x00FF) as u8
}

/// The low byte of an opcode, used to select within the key and
/// multi-instruction groups.
pub fn opcode_second_byte(opcode: u16) -> (r: u8)
    ensures
        r == op_kk(opcode),
{
    opcode_operand(opcode)
}

/// The low nibble of an opcode; always below 16.
pub fn opcode_last_octet(opcode: u16) -> (r: u8)
    ensures
        r == op_n(opcode),
        r < 16,
{
    proof {
        assert(opcode & 0x000F == opcode % 16) by (bit_vector);
    }
    (opcode & 0x000F) as u8
}

/// One decoded instruction, carrying its operand fields already
/// extracted.  Register indices `x` and `y` are always below 16 when
/// produced by [`spec_decode`] or [`decode_opcode`].
pub enum Instr {
    /// `00E0`: clear the framebuffer and mark it dirty.
    ClearScreen,
    /// `00EE`: pop a return address into the program counter.
    Return,
    /// `1nnn`: unconditional jump.
    Jump { nnn: u16 },
    /// `2nnn`: push the following address, jump to `nnn`.
    Call { nnn: u16 },
    /// `3xkk`: skip the next instruction if Vx equals `kk`.
    SkipEqImm { x: u8, kk: u8 },
    /// `4xkk`: skip the next instruction if Vx differs from `kk`.
    SkipNeImm { x: u8, kk: u8 },
    /// `5xy0`: skip the next instruction if Vx equals Vy.
    SkipEqReg { x: u8, y: u8 },
    /// `9xy0`: skip the next instruction if Vx differs from Vy.
    SkipNeReg { x: u8, y: u8 },
    /// `6xkk`: load the immediate into Vx.
    SetImm { x: u8, kk: u8 },
    /// `7xkk`: add the immediate to Vx with 8-bit wraparound, no flag.
    AddImm { x: u8, kk: u8 },
    /// `8xy0`: copy Vy into Vx.
    Copy { x: u8, y: u8 },
    /// `8xy1`: Vx = Vx OR Vy.
    Or { x: u8, y: u8 },
    /// `8xy2`: Vx = Vx AND Vy.
    And { x: u8, y: u8 },
    /// `8xy3`: Vx = Vx XOR Vy.
    Xor { x: u8, y: u8 },
    /// `8xy4`: Vx = Vx + Vy mod 256, flag = carry.
    AddCarry { x: u8, y: u8 },
    /// `8xy5`: Vx = Vx - Vy mod 256, flag = 1 iff no borrow.
    SubBorrow { x: u8, y: u8 },
    /// `8xy6`: Vx shifted right by one, flag = evicted low bit.
    ShiftRight { x: u8 },
    /// `8xy7`: Vx = Vy - Vx mod 256, flag = 1 iff no borrow.
    SubReverse { x: u8, y: u8 },
    /// `8xyE`: Vx shifted left by one, flag = evicted high bit.
    ShiftLeft { x: u8 },
    /// `Annn`: set the index register.
    SetIndex { nnn: u16 },
    /// `Bnnn`: jump to `nnn` plus V0.
    JumpPlusV0 { nnn: u16 },
    /// `Cxkk`: Vx = fresh random byte AND `kk`.
    Random { x: u8, kk: u8 },
    /// `Dxyn`: blit an `n`-row sprite at (Vx, Vy), flag = collision.
    Draw { x: u8, y: u8, n: u8 },
    /// `Ex9E`: skip if the key indexed by Vx is held.
    SkipIfKey { x: u8 },
    /// `ExA1`: skip if the key indexed by Vx is not held.
    SkipIfNotKey { x: u8 },
    /// `Fx07`: read the delay timer into Vx.
    ReadDelay { x: u8 },
    /// `Fx0A`: busy-poll until a key is held, then store its index in Vx.
    WaitKey { x: u8 },
    /// `Fx15`: write Vx into the delay timer.
    SetDelay { x: u8 },
    /// `Fx18`: write Vx into the sound timer.
    SetSound { x: u8 },
    /// `Fx1E`: add Vx to the index register, masked to 12 bits, with flag.
    AddIndex { x: u8 },
    /// `Fx29`: point the index register at the glyph for the digit in Vx.
    GlyphAddr { x: u8 },
    /// `Fx33`: write the decimal digits of Vx at the index address.
    StoreBcd { x: u8 },
    /// `Fx55`: copy registers 0..=x into memory at the index address.
    SpillRegs { x: u8 },
    /// `Fx65`: copy memory at the index address into registers 0..=x.
    LoadRegs { x: u8 },
    /// Any encoding not listed above: a silent no-op.
    Unknown,
}

/// The instruction denoted by an opcode, keyed by the high nibble and,
/// where that is shared, by further fields.
pub open spec fn spec_decode(op: u16) -> Instr {
    let nnn = op_nnn(op) as u16;
    let x = op_x(op) as u8;
    let y = op_y(op) as u8;
    let kk = op_kk(op) as u8;
    let n = op_n(op) as u8;
    if op == 0x00E0 {
        Instr::ClearScreen
    } else if op == 0x00EE {
        Instr::Return
    } else if op_hi(op) == 0x1 {
        Instr::Jump { nnn }
    } else if op_hi(op) == 0x2 {
        Instr::Call { nnn }
    } else if op_hi(op) == 0x3 {
        Instr::SkipEqImm { x, kk }
    } else if op_hi(op) == 0x4 {
        Instr::SkipNeImm { x, kk }
    } else if op_hi(op) == 0x5 {
        Instr::SkipEqReg { x, y }
    } else if op_hi(op) == 0x6 {
        Instr::SetImm { x, kk }
    } else if op_hi(op) == 0x7 {
        Instr::AddImm { x, kk }
    } else if op_hi(op) == 0x8 {
        if n == 0x0 {
            Instr::Copy { x, y }
        } else if n == 0x1 {
            Instr::Or { x, y }
        } else if n == 0x2 {
            Instr::And { x, y }
        } else if n == 0x3 {
            Instr::Xor { x, y }
        } else if n == 0x4 {
            Instr::AddCarry { x, y }
        } else if n == 0x5 {
            Instr::SubBorrow { x, y }
        } else if n == 0x6 {
            Instr::ShiftRight { x }
        } else if n == 0x7 {
            Instr::SubReverse { x, y }
        } else if n == 0xE {
            Instr::ShiftLeft { x }
        } else {
            Instr::Unknown
        }
    } else if op_hi(op) == 0x9 {
        Instr::SkipNeReg { x, y }
    } else if op_hi(op) == 0xA {
        Instr::SetIndex { nnn }
    } else if op_hi(op) == 0xB {
        Instr::JumpPlusV0 { nnn }
    } else if op_hi(op) == 0xC {
        Instr::Random { x, kk }
    } else if op_hi(op) == 0xD {
        Instr::Draw { x, y, n }
    } else if op_hi(op) == 0xE {
        if kk == 0x9E {
            Instr::SkipIfKey { x }
        } else if kk == 0xA1 {
            Instr::SkipIfNotKey { x }
        } else {
            Instr::Unknown
        }
    } else if op_hi(op) == 0xF {
        if kk == 0x07 {
            Instr::ReadDelay { x }
        } else if kk == 0x0A {
            Instr::WaitKey { x }
        } else if kk == 0x15 {
            Instr::SetDelay { x }
        } else if kk == 0x18 {
            Instr::SetSound { x }
        } else if kk == 0x1E {
            Instr::AddIndex { x }
        } else if kk == 0x29 {
            Instr::GlyphAddr { x }
        } else if kk == 0x33 {
            Instr::StoreBcd { x }
        } else if kk == 0x55 {
            Instr::SpillRegs { x }
        } else if kk == 0x65 {
            Instr::LoadRegs { x }
        } else {
            Instr::Unknown
        }
    } else {
        Instr::Unknown
    }
}

/// Decodes one opcode into its instruction.
pub fn decode_opcode(op: u16) -> (i: Instr)
    ensures
        i == spec_decode(op),
{
    proof {
        assert(op >> 12u16 == op / 0x1000) by (bit_vector);
        assert(op / 0x1000 < 16) by (bit_vector);
    }
    let hi = (op >> 12u16) as u8;
    let nnn = opcode_address(op);
    let x = opcode_register_vx(op) as u8;
    let y = opcode_register_vy(op) as u8;
    let kk = opcode_operand(op);
    let n = opcode_last_octet(op);
    match hi {
        0x0 => {
            if op == 0x00E0 {
                Instr::ClearScreen
            } else if op == 0x00EE {
                Instr::Return
            } else {
                Instr::Unknown
            }
        },
        0x1 => Instr::Jump { nnn },
        0x2 => Instr::Call { nnn },
        0x3 => Instr::SkipEqImm { x, kk },
        0x4 => Instr::SkipNeImm { x, kk },
        0x5 => Instr::SkipEqReg { x, y },
        0x6 => Instr::SetImm { x, kk },
        0x7 => Instr::AddImm { x, kk },
        0x8 => {
            match n {
                0x0 => Instr::Copy { x, y },
                0x1 => Instr::Or { x, y },
                0x2 => Instr::And { x, y },
                0x3 => Instr::Xor { x, y },
                0x4 => Instr::AddCarry { x, y },
                0x5 => Instr::SubBorrow { x, y },
                0x6 => Instr::ShiftRight { x },
                0x7 => Instr::SubReverse { x, y },
                0xE => Instr::ShiftLeft { x },
                _ => Instr::Unknown,
            }
        },
        0x9 => Instr::SkipNeReg { x, y },
        0xA => Instr::SetIndex { nnn },
        0xB => Instr::JumpPlusV0 { nnn },
        0xC => Instr::Random { x, kk },
        0xD => Instr::Draw { x, y, n },
        0xE => {
            if kk == 0x9E {
                Instr::SkipIfKey { x }
            } else if kk == 0xA1 {
                Instr::SkipIfNotKey { x }
            } else {
                Instr::Unknown
            }
        },
        0xF => {
            match kk {
                0x07 => Instr::ReadDelay { x },
                0x0A => Instr::WaitKey { x },
                0x15 => Instr::SetDelay { x },
                0x18 => Instr::SetSound { x },
                0x1E => Instr::AddIndex { x },
                0x29 => Instr::GlyphAddr { x },
                0x33 => Instr::StoreBcd { x },
                0x55 => Instr::SpillRegs { x },
                0x65 => Instr::LoadRegs { x },
                _ => Instr::Unknown,
            }
        },
        _ => Instr::Unknown,
    }
}

} // verus!
