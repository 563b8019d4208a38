//! The mathematical model of the machine's state.

use vstd::prelude::*;

verus! {

/// Bytes of addressable memory.
pub const MEMORY_SIZE: usize = 4096;

/// Where a loaded program starts, and where execution begins.
pub const PROGRAM_START: u16 = 0x200;

/// The largest program image that can be loaded.
pub const MAX_ROM_SIZE: usize = 3583;

/// Number of general registers.
pub const REGISTER_COUNT: usize = 16;

/// The register that instructions use as their carry, borrow and collision
/// output.
pub const FLAG: usize = 15;

/// Number of keys on the pad.
pub const KEY_COUNT: usize = 16;

/// Display width in pixels.
pub const DISPLAY_WIDTH: usize = 64;

/// Display height in pixels.
pub const DISPLAY_HEIGHT: usize = 32;

/// Number of pixels on the display.
pub const DISPLAY_SIZE: usize = 2048;

/// Bytes in the built-in font: sixteen glyphs of five rows each.
pub const FONT_SIZE: usize = 80;

/// The built-in hexadecimal font. Glyph `d` occupies the five bytes from
/// `5 * d`, one byte per row; a glyph is four pixels wide, so only the
/// high nibble of a row is used.
pub const FONT: [u8; 80] = [
    0xF0, 0x90, 0x90, 0x90, 0xF0,
    0x20, 0x60, 0x20, 0x20, 0x70,
    0xF0, 0x10, 0xF0, 0x80, 0xF0,
    0xF0, 0x10, 0xF0, 0x10, 0xF0,
    0x90, 0x90, 0xF0, 0x10, 0x10,
    0xF0, 0x80, 0xF0, 0x10, 0xF0,
    0xF0, 0x80, 0xF0, 0x90, 0xF0,
    0xF0, 0x10, 0x20, 0x40, 0x40,
    0xF0, 0x90, 0xF0, 0x90, 0xF0,
    0xF0, 0x90, 0xF0, 0x10, 0xF0,
    0xF0, 0x90, 0xF0, 0x90, 0x90,
    0xE0, 0x90, 0xE0, 0x90, 0xE0,
    0xF0, 0x80, 0x80, 0x80, 0xF0,
    0xE0, 0x90, 0x90, 0x90, 0xE0,
    0xF0, 0x80, 0xF0, 0x80, 0xF0,
    0xF0, 0x80, 0xF0, 0x80, 0x80,
];

/// Everything a program can observe of the machine.
#[verifier::ext_equal]
pub struct MachineState {
    /// The 4096 bytes of memory.
    pub memory: Seq<u8>,
    /// The sixteen general registers; the last is the flag register.
    pub v: Seq<u8>,
    /// The address register.
    pub i: u16,
    /// The program counter.
    pub pc: u16,
    /// The live return addresses, the most recent call last.
    pub stack: Seq<u16>,
    /// The delay timer.
    pub delay: u8,
    /// The sound timer.
    pub sound: u8,
    /// The 2048 pixels, row by row from the top left.
    pub display: Seq<bool>,
    /// Which of the sixteen keys are held down.
    pub keys: Seq<bool>,
}

impl MachineState {
    /// The shape every machine state has.
    pub open spec fn wf(self) -> bool {
        &&& self.memory.len() == MEMORY_SIZE
        &&& self.v.len() == REGISTER_COUNT
        &&& self.stack.len() <= 16
        &&& self.display.len() == DISPLAY_SIZE
        &&& self.keys.len() == KEY_COUNT
    }

    /// The state of a freshly built machine: the font at the bottom of
    /// memory and everything else zero, off or empty.
    pub open spec fn initial() -> MachineState {
        MachineState {
            memory: Seq::new(4096, |a: int| if a < FONT_SIZE { FONT@[a] } else { 0u8 }),
            v: Seq::new(16, |r: int| 0u8),
            i: 0,
            pc: 0,
            stack: Seq::empty(),
            delay: 0,
            sound: 0,
            display: Seq::new(2048, |p: int| false),
            keys: Seq::new(16, |k: int| false),
        }
    }
}

} // verus!
