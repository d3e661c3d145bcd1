//! The opcode decoder: from a 16-bit instruction word to its operand fields,
//! and from the fields to the instruction they encode.

use vstd::prelude::*;

verus! {

/// The operand fields of an instruction word.
#[derive(Clone, Copy, Debug, PartialEq, Eq, Structural)]
pub struct Fields {
    /// Bits 12-15: the instruction family.
    pub class: u8,
    /// Bits 8-11: usually a register index.
    pub x: u8,
    /// Bits 4-7: usually a second register index.
    pub y: u8,
    /// Bits 0-3: a 4-bit immediate.
    pub n: u8,
    /// Bits 0-7: an 8-bit immediate.
    pub nn: u8,
    /// Bits 0-11: a 12-bit address.
    pub nnn: u16,
}

/// The fields of `word`, by place value: the word is
/// `class * 0x1000 + x * 0x100 + y * 0x10 + n`.
pub open spec fn fields_of(word: u16) -> Fields {
    Fields {
        class: (word / 0x1000) as u8,
        x: (word / 0x100 % 0x10) as u8,
        y: (word / 0x10 % 0x10) as u8,
        n: (word % 0x10) as u8,
        nn: (word % 0x100) as u8,
        nnn: (word % 0x1000) as u16,
    }
}

/// The instruction word whose high byte is `hi` and whose low byte is `lo`.
pub open spec fn word_of(hi: u8, lo: u8) -> u16 {
    (hi * 0x100 + lo) as u16
}

/// Joins the two bytes of an instruction, high byte first.
pub fn join(hi: u8, lo: u8) -> (word: u16)
    ensures
        word == word_of(hi, lo),
{
    let wide_hi: u16 = hi as u16;
    let wide_lo: u16 = lo as u16;
    assert((wide_hi << 8 | wide_lo) == wide_hi * 0x100 + wide_lo) by (bit_vector)
        requires
            wide_hi < 0x100,
            wide_lo < 0x100,
    ;
    wide_hi << 8 | wide_lo
}

/// Splits an instruction word into its fields. Every word decodes.
pub fn decode(word: u16) -> (fields: Fields)
    ensures
        fields == fields_of(word),
{
    assert((word >> 12) == word / 0x1000) by (bit_vector);
    assert(((word >> 8) & 0xF) == word / 0x100 % 0x10) by (bit_vector);
    assert(((word >> 4) & 0xF) == word / 0x10 % 0x10) by (bit_vector);
    assert((word & 0xF) == word % 0x10) by (bit_vector);
    assert((word & 0xFF) == word % 0x100) by (bit_vector);
    assert((word & 0xFFF) == word % 0x1000) by (bit_vector);
    Fields {
        class: (word >> 12) as u8,
        x: ((word >> 8) & 0xF) as u8,
        y: ((word >> 4) & 0xF) as u8,
        n: (word & 0xF) as u8,
        nn: (word & 0xFF) as u8,
        nnn: word & 0xFFF,
    }
}

/// One instruction of the machine. Register operands are register indices,
/// `addr` is a 12-bit address.
#[derive(Clone, Copy, Debug, PartialEq, Eq, Structural)]
pub enum Instruction {
    /// The all-zero word: execution has run off the program.
    Null,
    /// `00E0`: turn every pixel off.
    ClearScreen,
    /// `00EE`: return from a subroutine.
    Return,
    /// `0NNN`: a call into the host machine, which does nothing here.
    System { addr: u16 },
    /// `1NNN`: jump to `addr`.
    Jump { addr: u16 },
    /// `2NNN`: call the subroutine at `addr`.
    Call { addr: u16 },
    /// `3XNN`: skip the next instruction if `V[x] == nn`.
    SkipIfEqual { x: u8, nn: u8 },
    /// `4XNN`: skip the next instruction if `V[x] != nn`.
    SkipIfNotEqual { x: u8, nn: u8 },
    /// `5XY_`: skip the next instruction if `V[x] == V[y]`.
    SkipIfRegistersEqual { x: u8, y: u8 },
    /// `6XNN`: `V[x] = nn`.
    Load { x: u8, nn: u8 },
    /// `7XNN`: `V[x] += nn`, wrapping, flags untouched.
    Add { x: u8, nn: u8 },
    /// `8XY0`: `V[x] = V[y]`.
    Copy { x: u8, y: u8 },
    /// `8XY1`: `V[x] |= V[y]`.
    Or { x: u8, y: u8 },
    /// `8XY2`: `V[x] &= V[y]`.
    And { x: u8, y: u8 },
    /// `8XY3`: `V[x] ^= V[y]`.
    Xor { x: u8, y: u8 },
    /// `8XY4`: `V[x] += V[y]`, wrapping, with the carry in `VF`.
    AddRegister { x: u8, y: u8 },
    /// `8XY5`: `V[x] -= V[y]`, wrapping, with the no-borrow flag in `VF`.
    Subtract { x: u8, y: u8 },
    /// `8X_6`: shift `V[x]` right by one, the bit shifted out in `VF`.
    ShiftRight { x: u8 },
    /// `8XY7`: `V[x] = V[y] - V[x]`, wrapping, with the no-borrow flag in `VF`.
    ReverseSubtract { x: u8, y: u8 },
    /// `8X_E`: shift `V[x]` left by one, the bit shifted out in `VF`.
    ShiftLeft { x: u8 },
    /// `9XY_`: skip the next instruction if `V[x] != V[y]`.
    SkipIfRegistersNotEqual { x: u8, y: u8 },
    /// `ANNN`: `I = addr`.
    LoadIndex { addr: u16 },
    /// `BNNN`: jump to `V[0] + addr`.
    JumpOffset { addr: u16 },
    /// `CXNN`: `V[x] = random byte & nn`.
    Random { x: u8, nn: u8 },
    /// `DXYN`: draw the `n`-row sprite at `I` at `(V[x], V[y])`.
    Draw { x: u8, y: u8, n: u8 },
    /// `EX9E`: skip if the key in `V[x]` is pressed; no key ever is.
    SkipIfKey { x: u8 },
    /// `EXA1`: skip if the key in `V[x]` is not pressed; never skips.
    SkipIfNotKey { x: u8 },
    /// `FX07`: `V[x] = delay timer`.
    ReadDelay { x: u8 },
    /// `FX0A`: wait for a key; without a keyboard, `V[x] = 0`.
    ReadKey { x: u8 },
    /// `FX15`: `delay timer = V[x]`.
    SetDelay { x: u8 },
    /// `FX18`: `sound timer = V[x]`.
    SetSound { x: u8 },
    /// `FX1E`: `I += V[x]`, wrapping at the width of `I`.
    AddIndex { x: u8 },
    /// `FX29`: `I` = address of the glyph for `V[x]`.
    FontAddress { x: u8 },
    /// `FX33`: store the decimal digits of `V[x]` at `I`, `I + 1`, `I + 2`.
    StoreBcd { x: u8 },
    /// `FX55`: store `V[0]` to `V[x]` at `I` onwards.
    DumpRegisters { x: u8 },
    /// `FX65`: load `V[0]` to `V[x]` from `I` onwards.
    LoadRegisters { x: u8 },
    /// Any other word: no instruction is assigned to it, and it does nothing.
    Undefined { word: u16 },
}

/// The instruction in family 8 that `word` encodes.
pub open spec fn arithmetic_of(word: u16) -> Instruction {
    let f = fields_of(word);
    if f.n == 0x0 {
        Instruction::Copy { x: f.x, y: f.y }
    } else if f.n == 0x1 {
        Instruction::Or { x: f.x, y: f.y }
    } else if f.n == 0x2 {
        Instruction::And { x: f.x, y: f.y }
    } else if f.n == 0x3 {
        Instruction::Xor { x: f.x, y: f.y }
    } else if f.n == 0x4 {
        Instruction::AddRegister { x: f.x, y: f.y }
    } else if f.n == 0x5 {
        Instruction::Subtract { x: f.x, y: f.y }
    } else if f.n == 0x6 {
        Instruction::ShiftRight { x: f.x }
    } else if f.n == 0x7 {
        Instruction::ReverseSubtract { x: f.x, y: f.y }
    } else if f.n == 0xE {
        Instruction::ShiftLeft { x: f.x }
    } else {
        Instruction::Undefined { word }
    }
}

/// The instruction in family F that `word` encodes.
pub open spec fn peripheral_of(word: u16) -> Instruction {
    let f = fields_of(word);
    if f.nn == 0x07 {
        Instruction::ReadDelay { x: f.x }
    } else if f.nn == 0x0A {
        Instruction::ReadKey { x: f.x }
    } else if f.nn == 0x15 {
        Instruction::SetDelay { x: f.x }
    } else if f.nn == 0x18 {
        Instruction::SetSound { x: f.x }
    } else if f.nn == 0x1E {
        Instruction::AddIndex { x: f.x }
    } else if f.nn == 0x29 {
        Instruction::FontAddress { x: f.x }
    } else if f.nn == 0x33 {
        Instruction::StoreBcd { x: f.x }
    } else if f.nn == 0x55 {
        Instruction::DumpRegisters { x: f.x }
    } else if f.nn == 0x65 {
        Instruction::LoadRegisters { x: f.x }
    } else {
        Instruction::Undefined { word }
    }
}

/// The instruction that `word` encodes. The family is chosen by the top
/// nibble; families 0, 8, E and F are divided further by the low bits.
pub open spec fn instruction_of(word: u16) -> Instruction {
    let f = fields_of(word);
    if word == 0x0000 {
        Instruction::Null
    } else if word == 0x00E0 {
        Instruction::ClearScreen
    } else if word == 0x00EE {
        Instruction::Return
    } else if f.class == 0x0 {
        Instruction::System { addr: f.nnn }
    } else if f.class == 0x1 {
        Instruction::Jump { addr: f.nnn }
    } else if f.class == 0x2 {
        Instruction::Call { addr: f.nnn }
    } else if f.class == 0x3 {
        Instruction::SkipIfEqual { x: f.x, nn: f.nn }
    } else if f.class == 0x4 {
        Instruction::SkipIfNotEqual { x: f.x, nn: f.nn }
    } else if f.class == 0x5 {
        Instruction::SkipIfRegistersEqual { x: f.x, y: f.y }
    } else if f.class == 0x6 {
        Instruction::Load { x: f.x, nn: f.nn }
    } else if f.class == 0x7 {
        Instruction::Add { x: f.x, nn: f.nn }
    } else if f.class == 0x8 {
        arithmetic_of(word)
    } else if f.class == 0x9 {
        Instruction::SkipIfRegistersNotEqual { x: f.x, y: f.y }
    } else if f.class == 0xA {
        Instruction::LoadIndex { addr: f.nnn }
    } else if f.class == 0xB {
        Instruction::JumpOffset { addr: f.nnn }
    } else if f.class == 0xC {
        Instruction::Random { x: f.x, nn: f.nn }
    } else if f.class == 0xD {
        Instruction::Draw { x: f.x, y: f.y, n: f.n }
    } else if f.class == 0xE {
        if f.nn == 0x9E {
            Instruction::SkipIfKey { x: f.x }
        } else if f.nn == 0xA1 {
            Instruction::SkipIfNotKey { x: f.x }
        } else {
            Instruction::Undefined { word }
        }
    } else {
        peripheral_of(word)
    }
}

impl Instruction {
    /// Whether the operands are in range: register indices and the sprite
    /// height below 16, addresses below `0x1000`.
    pub open spec fn wf(self) -> bool {
        match self {
            Instruction::Null | Instruction::ClearScreen | Instruction::Return => true,
            Instruction::System { addr }
            | Instruction::Jump { addr }
            | Instruction::Call { addr }
            | Instruction::LoadIndex { addr }
            | Instruction::JumpOffset { addr } => addr < 0x1000,
            Instruction::SkipIfEqual { x, nn }
            | Instruction::SkipIfNotEqual { x, nn }
            | Instruction::Load { x, nn }
            | Instruction::Add { x, nn }
            | Instruction::Random { x, nn } => x < 16,
            Instruction::SkipIfRegistersEqual { x, y }
            | Instruction::Copy { x, y }
            | Instruction::Or { x, y }
            | Instruction::And { x, y }
            | Instruction::Xor { x, y }
            | Instruction::AddRegister { x, y }
            | Instruction::Subtract { x, y }
            | Instruction::ReverseSubtract { x, y }
            | Instruction::SkipIfRegistersNotEqual { x, y } => x < 16 && y < 16,
            Instruction::Draw { x, y, n } => x < 16 && y < 16 && n < 16,
            Instruction::ShiftRight { x }
            | Instruction::ShiftLeft { x }
            | Instruction::SkipIfKey { x }
            | Instruction::SkipIfNotKey { x }
            | Instruction::ReadDelay { x }
            | Instruction::ReadKey { x }
            | Instruction::SetDelay { x }
            | Instruction::SetSound { x }
            | Instruction::AddIndex { x }
            | Instruction::FontAddress { x }
            | Instruction::StoreBcd { x }
            | Instruction::DumpRegisters { x }
            | Instruction::LoadRegisters { x } => x < 16,
            Instruction::Undefined { word } => true,
        }
    }

    /// Decodes an instruction word. Every word decodes, to an instruction
    /// whose operands are in range.
    pub fn decode(word: u16) -> (instruction: Instruction)
        ensures
            instruction == instruction_of(word),
            instruction.wf(),
    {
        let f = decode(word);
        if word == 0x0000 {
            return Instruction::Null;
        }
        if word == 0x00E0 {
            return Instruction::ClearScreen;
        }
        if word == 0x00EE {
            return Instruction::Return;
        }
        match f.class {
            0x0 => Instruction::System { addr: f.nnn },
            0x1 => Instruction::Jump { addr: f.nnn },
            0x2 => Instruction::Call { addr: f.nnn },
            0x3 => Instruction::SkipIfEqual { x: f.x, nn: f.nn },
            0x4 => Instruction::SkipIfNotEqual { x: f.x, nn: f.nn },
            0x5 => Instruction::SkipIfRegistersEqual { x: f.x, y: f.y },
            0x6 => Instruction::Load { x: f.x, nn: f.nn },
            0x7 => Instruction::Add { x: f.x, nn: f.nn },
            0x8 => match f.n {
                0x0 => Instruction::Copy { x: f.x, y: f.y },
                0x1 => Instruction::Or { x: f.x, y: f.y },
                0x2 => Instruction::And { x: f.x, y: f.y },
                0x3 => Instruction::Xor { x: f.x, y: f.y },
                0x4 => Instruction::AddRegister { x: f.x, y: f.y },
                0x5 => Instruction::Subtract { x: f.x, y: f.y },
                0x6 => Instruction::ShiftRight { x: f.x },
                0x7 => Instruction::ReverseSubtract { x: f.x, y: f.y },
                0xE => Instruction::ShiftLeft { x: f.x },
                _ => Instruction::Undefined { word },
            },
            0x9 => Instruction::SkipIfRegistersNotEqual { x: f.x, y: f.y },
            0xA => Instruction::LoadIndex { addr: f.nnn },
            0xB => Instruction::JumpOffset { addr: f.nnn },
            0xC => Instruction::Random { x: f.x, nn: f.nn },
            0xD => Instruction::Draw { x: f.x, y: f.y, n: f.n },
            0xE => match f.nn {
                0x9E => Instruction::SkipIfKey { x: f.x },
                0xA1 => Instruction::SkipIfNotKey { x: f.x },
                _ => Instruction::Undefined { word },
            },
            _ => match f.nn {
                0x07 => Instruction::ReadDelay { x: f.x },
                0x0A => Instruction::ReadKey { x: f.x },
                0x15 => Instruction::SetDelay { x: f.x },
                0x18 => Instruction::SetSound { x: f.x },
                0x1E => Instruction::AddIndex { x: f.x },
                0x29 => Instruction::FontAddress { x: f.x },
                0x33 => Instruction::StoreBcd { x: f.x },
                0x55 => Instruction::DumpRegisters { x: f.x },
                0x65 => Instruction::LoadRegisters { x: f.x },
                _ => Instruction::Undefined { word },
            },
        }
    }
}

} // verus!
