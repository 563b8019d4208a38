//! Instruction words and how they are decoded.
//!
//! An instruction is sixteen bits, stored high byte first. Its top nibble is
//! the class; the other three nibbles are, depending on the class, a
//! register number `x`, a register number `y`, a four-bit count, an
//! eight-bit constant or a twelve-bit address. A class that holds several
//! instructions tells them apart by the low byte (classes `0`, `E`, `F`) or
//! the low nibble (classes `5`, `8`, `9`); the bits that neither select the
//! instruction nor belong to an operand are not looked at.

use vstd::prelude::*;

verus! {

/// A decoded instruction. Register numbers are below sixteen, addresses
/// below 4096 and the row count of `Draw` below sixteen.
#[derive(Debug, Clone, Copy, PartialEq, Eq)]
pub enum Instruction {
    /// `00E0`: switch every pixel off.
    ClearScreen,
    /// `00EE`: return from a subroutine.
    Return,
    /// `1nnn`: jump to `nnn`.
    Jump(u16),
    /// `2nnn`: call the subroutine at `nnn`.
    Call(u16),
    /// `3xkk`: skip the next instruction if `Vx == kk`.
    SkipIfByte(u8, u8),
    /// `4xkk`: skip the next instruction if `Vx != kk`.
    SkipUnlessByte(u8, u8),
    /// `5xy0`: skip the next instruction if `Vx == Vy`.
    SkipIfSame(u8, u8),
    /// `6xkk`: `Vx := kk`.
    SetByte(u8, u8),
    /// `7xkk`: `Vx := Vx + kk` modulo 256; the flag register is left alone.
    AddByte(u8, u8),
    /// `8xy0`: `Vx := Vy`.
    Assign(u8, u8),
    /// `8xy1`: `Vx := Vx | Vy`.
    Or(u8, u8),
    /// `8xy2`: `Vx := Vx & Vy`.
    And(u8, u8),
    /// `8xy3`: `Vx := Vx ^ Vy`.
    Xor(u8, u8),
    /// `8xy4`: `Vx := Vx + Vy` modulo 256, flag := carry.
    Add(u8, u8),
    /// `8xy5`: `Vx := Vx - Vy` modulo 256, flag := no borrow.
    Sub(u8, u8),
    /// `8xy6`: `Vx := Vx >> 1`, flag := the bit shifted out.
    ShiftRight(u8),
    /// `8xy7`: `Vx := Vy - Vx` modulo 256, flag := no borrow.
    SubFrom(u8, u8),
    /// `8xyE`: `Vx := Vx << 1` modulo 256, flag := the bit shifted out.
    ShiftLeft(u8),
    /// `9xy0`: skip the next instruction if `Vx != Vy`.
    SkipUnlessSame(u8, u8),
    /// `Annn`: address register := `nnn`.
    SetIndex(u16),
    /// `Bnnn`: jump to `nnn + V0`.
    JumpOffset(u16),
    /// `Cxkk`: `Vx := random byte & kk`.
    Random(u8, u8),
    /// `Dxyn`: draw the `n`-row sprite at the address register to
    /// `(Vx, Vy)`.
    Draw(u8, u8, u8),
    /// `Ex9E`: skip the next instruction if key `Vx` is down.
    SkipIfKey(u8),
    /// `ExA1`: skip the next instruction if key `Vx` is up.
    SkipUnlessKey(u8),
    /// `Fx07`: `Vx := delay timer`.
    ReadDelay(u8),
    /// `Fx0A`: wait for a key, then `Vx := ` its number.
    WaitKey(u8),
    /// `Fx15`: delay timer := `Vx`.
    SetDelay(u8),
    /// `Fx18`: sound timer := `Vx`.
    SetSound(u8),
    /// `Fx1E`: address register := address register + `Vx` modulo 65536.
    AddIndex(u8),
    /// `Fx29`: address register := address of the glyph for `Vx`.
    Glyph(u8),
    /// `Fx33`: store the three decimal digits of `Vx` at the address
    /// register.
    Decimal(u8),
    /// `Fx55`: store `V0..=Vx` at the address register.
    Store(u8),
    /// `Fx65`: load `V0..=Vx` from the address register.
    Load(u8),
}

/// The class of an instruction word: its top nibble.
pub open spec fn class_of(word: u16) -> u8 {
    (word / 0x1000) as u8
}

/// The `x` operand: bits 8 to 11.
pub open spec fn x_of(word: u16) -> u8 {
    ((word / 0x100) % 0x10) as u8
}

/// The `y` operand: bits 4 to 7.
pub open spec fn y_of(word: u16) -> u8 {
    ((word / 0x10) % 0x10) as u8
}

/// The low nibble.
pub open spec fn nibble_of(word: u16) -> u8 {
    (word % 0x10) as u8
}

/// The low byte.
pub open spec fn byte_of(word: u16) -> u8 {
    (word % 0x100) as u8
}

/// The address operand: the low twelve bits.
pub open spec fn addr_of(word: u16) -> u16 {
    (word % 0x1000) as u16
}

/// The instruction that `word` encodes, if it encodes one.
pub open spec fn decoded(word: u16) -> Option<Instruction> {
    let x = x_of(word);
    let y = y_of(word);
    let n = nibble_of(word);
    let kk = byte_of(word);
    let nnn = addr_of(word);
    match class_of(word) {
        0x0 => if kk == 0xE0 {
            Some(Instruction::ClearScreen)
        } else if kk == 0xEE {
            Some(Instruction::Return)
        } else {
            None
        },
        0x1 => Some(Instruction::Jump(nnn)),
        0x2 => Some(Instruction::Call(nnn)),
        0x3 => Some(Instruction::SkipIfByte(x, kk)),
        0x4 => Some(Instruction::SkipUnlessByte(x, kk)),
        0x5 => if n == 0 {
            Some(Instruction::SkipIfSame(x, y))
        } else {
            None
        },
        0x6 => Some(Instruction::SetByte(x, kk)),
        0x7 => Some(Instruction::AddByte(x, kk)),
        0x8 => match n {
            0x0 => Some(Instruction::Assign(x, y)),
            0x1 => Some(Instruction::Or(x, y)),
            0x2 => Some(Instruction::And(x, y)),
            0x3 => Some(Instruction::Xor(x, y)),
            0x4 => Some(Instruction::Add(x, y)),
            0x5 => Some(Instruction::Sub(x, y)),
            0x6 => Some(Instruction::ShiftRight(x)),
            0x7 => Some(Instruction::SubFrom(x, y)),
            0xE => Some(Instruction::ShiftLeft(x)),
            _ => None,
        },
        0x9 => if n == 0 {
            Some(Instruction::SkipUnlessSame(x, y))
        } else {
            None
        },
        0xA => Some(Instruction::SetIndex(nnn)),
        0xB => Some(Instruction::JumpOffset(nnn)),
        0xC => Some(Instruction::Random(x, kk)),
        0xD => Some(Instruction::Draw(x, y, n)),
        0xE => match kk {
            0x9E => Some(Instruction::SkipIfKey(x)),
            0xA1 => Some(Instruction::SkipUnlessKey(x)),
            _ => None,
        },
        _ => match kk {
            0x07 => Some(Instruction::ReadDelay(x)),
            0x0A => Some(Instruction::WaitKey(x)),
            0x15 => Some(Instruction::SetDelay(x)),
            0x18 => Some(Instruction::SetSound(x)),
            0x1E => Some(Instruction::AddIndex(x)),
            0x29 => Some(Instruction::Glyph(x)),
            0x33 => Some(Instruction::Decimal(x)),
            0x55 => Some(Instruction::Store(x)),
            0x65 => Some(Instruction::Load(x)),
            _ => None,
        },
    }
}

impl Instruction {
    /// Whether the operands are in range: register numbers and the row
    /// count below sixteen, addresses below 4096.
    pub open spec fn wf(self) -> bool {
        match self {
            Instruction::ClearScreen | Instruction::Return => true,
            Instruction::Jump(nnn)
            | Instruction::Call(nnn)
            | Instruction::SetIndex(nnn)
            | Instruction::JumpOffset(nnn) => nnn < 0x1000,
            Instruction::SkipIfByte(x, _)
            | Instruction::SkipUnlessByte(x, _)
            | Instruction::SetByte(x, _)
            | Instruction::AddByte(x, _)
            | Instruction::Random(x, _) => x < 16,
            Instruction::SkipIfSame(x, y)
            | Instruction::SkipUnlessSame(x, y)
            | Instruction::Assign(x, y)
            | Instruction::Or(x, y)
            | Instruction::And(x, y)
            | Instruction::Xor(x, y)
            | Instruction::Add(x, y)
            | Instruction::Sub(x, y)
            | Instruction::SubFrom(x, y) => x < 16 && y < 16,
            Instruction::Draw(x, y, n) => x < 16 && y < 16 && n < 16,
            Instruction::ShiftRight(x)
            | Instruction::ShiftLeft(x)
            | Instruction::SkipIfKey(x)
            | Instruction::SkipUnlessKey(x)
            | Instruction::ReadDelay(x)
            | Instruction::WaitKey(x)
            | Instruction::SetDelay(x)
            | Instruction::SetSound(x)
            | Instruction::AddIndex(x)
            | Instruction::Glyph(x)
            | Instruction::Decimal(x)
            | Instruction::Store(x)
            | Instruction::Load(x) => x < 16,
        }
    }
}

/// Whatever a word decodes to has its operands in range.
pub proof fn lemma_decoded_wf(word: u16)
    ensures
        decoded(word) matches Some(instruction) ==> instruction.wf(),
{
}

/// The instruction word made of `high` and `low`, high byte first.
pub open spec fn word_of(high: u8, low: u8) -> u16 {
    (high * 0x100 + low) as u16
}

/// Joins two bytes into an instruction word, high byte first.
pub fn join(high: u8, low: u8) -> (word: u16)
    ensures
        word == word_of(high, low),
{
    let word = ((high as u16) << 8) | (low as u16);
    assert(((high as u16) << 8) | (low as u16) == (high as u16) * 0x100 + (low as u16))
        by (bit_vector);
    word
}

/// Decodes an instruction word.
pub fn decode(word: u16) -> (instruction: Option<Instruction>)
    ensures
        instruction == decoded(word),
{
    let class = (word >> 12) as u8;
    let x = ((word >> 8) & 0xF) as u8;
    let y = ((word >> 4) & 0xF) as u8;
    let n = (word & 0xF) as u8;
    let kk = (word & 0xFF) as u8;
    let nnn = word & 0xFFF;
    assert(word >> 12 == word / 0x1000 && word >> 12 < 16) by (bit_vector);
    assert((word >> 8) & 0xF == (word / 0x100) % 0x10) by (bit_vector);
    assert((word >> 4) & 0xF == (word / 0x10) % 0x10) by (bit_vector);
    assert(word & 0xF == word % 0x10) by (bit_vector);
    assert(word & 0xFF == word % 0x100) by (bit_vector);
    assert(word & 0xFFF == word % 0x1000) by (bit_vector);
    match class {
        0x0 => if kk == 0xE0 {
            Some(Instruction::ClearScreen)
        } else if kk == 0xEE {
            Some(Instruction::Return)
        } else {
            None
        },
        0x1 => Some(Instruction::Jump(nnn)),
        0x2 => Some(Instruction::Call(nnn)),
        0x3 => Some(Instruction::SkipIfByte(x, kk)),
        0x4 => Some(Instruction::SkipUnlessByte(x, kk)),
        0x5 => if n == 0 {
            Some(Instruction::SkipIfSame(x, y))
        } else {
            None
        },
        0x6 => Some(Instruction::SetByte(x, kk)),
        0x7 => Some(Instruction::AddByte(x, kk)),
        0x8 => match n {
            0x0 => Some(Instruction::Assign(x, y)),
            0x1 => Some(Instruction::Or(x, y)),
            0x2 => Some(Instruction::And(x, y)),
            0x3 => Some(Instruction::Xor(x, y)),
            0x4 => Some(Instruction::Add(x, y)),
            0x5 => Some(Instruction::Sub(x, y)),
            0x6 => Some(Instruction::ShiftRight(x)),
            0x7 => Some(Instruction::SubFrom(x, y)),
            0xE => Some(Instruction::ShiftLeft(x)),
            _ => None,
        },
        0x9 => if n == 0 {
            Some(Instruction::SkipUnlessSame(x, y))
        } else {
            None
        },
        0xA => Some(Instruction::SetIndex(nnn)),
        0xB => Some(Instruction::JumpOffset(nnn)),
        0xC => Some(Instruction::Random(x, kk)),
        0xD => Some(Instruction::Draw(x, y, n)),
        0xE => match kk {
            0x9E => Some(Instruction::SkipIfKey(x)),
            0xA1 => Some(Instruction::SkipUnlessKey(x)),
            _ => None,
        },
        _ => match kk {
            0x07 => Some(Instruction::ReadDelay(x)),
            0x0A => Some(Instruction::WaitKey(x)),
            0x15 => Some(Instruction::SetDelay(x)),
            0x18 => Some(Instruction::SetSound(x)),
            0x1E => Some(Instruction::AddIndex(x)),
            0x29 => Some(Instruction::Glyph(x)),
            0x33 => Some(Instruction::Decimal(x)),
            0x55 => Some(Instruction::Store(x)),
            0x65 => Some(Instruction::Load(x)),
            _ => None,
        },
    }
}

} // verus!
