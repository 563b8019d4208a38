//! The failures that the machine reports to its caller.

use vstd::prelude::*;

verus! {

/// `std::io::ErrorKind`, carried through unopened: the machine never looks
/// inside it.
#[verifier::external_type_specification]
#[verifier::external_body]
pub struct ExIoErrorKind(std::io::ErrorKind);

/// Why an instruction could not be carried out. The machine is left exactly
/// as it was before the failing cycle.
#[derive(Debug, Clone, Copy, PartialEq, Eq)]
pub enum Fault {
    /// The two bytes at the program counter encode no instruction.
    UnknownOpcode(u16),
    /// A call was made with sixteen return addresses already on the stack.
    StackOverflow,
    /// A return was made with no return address on the stack.
    StackUnderflow,
    /// The program counter does not leave room for a two-byte instruction
    /// inside memory.
    PcOutOfBounds,
    /// The instruction would read or write memory past address `0xFFF`.
    AddressOutOfBounds,
    /// A key instruction named a key above `0xF`.
    KeyOutOfRange,
}

/// Everything that can go wrong while loading or running a program.
#[derive(Debug, Clone, Copy, PartialEq, Eq)]
pub enum Error {
    /// The program image could not be read. The machine itself never
    /// produces this: it is for whoever reads the image on its behalf.
    Io(std::io::ErrorKind),
    /// The program image holds this many bytes, more than the 3583 that fit
    /// between `0x200` and the end of memory.
    RomTooLarge(u64),
    /// The running program drove the machine into a state that no
    /// instruction allows.
    IllegalState(Fault),
}

} // verus!
