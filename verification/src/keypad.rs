//! The sixteen host keys that stand for the machine's keypad.
//!
//! The keypad is a four-by-four grid whose keys are numbered
//!
//! ```text
//! 1 2 3 C
//! 4 5 6 D
//! 7 8 9 E
//! A 0 B F
//! ```
//!
//! and the host keys lie in the same grid on a keyboard: the top row on
//! the number pad, the other three on the letters below.

use vstd::prelude::*;

verus! {

/// A host key that stands for a key of the machine, named by what is
/// printed on it. They are listed row by row.
#[derive(Debug, Clone, Copy, PartialEq, Eq)]
pub enum HostKey {
    Kp1,
    Kp2,
    Kp3,
    Kp4,
    Q,
    W,
    E,
    R,
    A,
    S,
    D,
    F,
    Z,
    X,
    C,
    V,
}

/// The number of the keypad key that `key` stands for.
pub open spec fn keypad_number(key: HostKey) -> u8 {
    match key {
        HostKey::Kp1 => 0x1,
        HostKey::Kp2 => 0x2,
        HostKey::Kp3 => 0x3,
        HostKey::Kp4 => 0xC,
        HostKey::Q => 0x4,
        HostKey::W => 0x5,
        HostKey::E => 0x6,
        HostKey::R => 0xD,
        HostKey::A => 0x7,
        HostKey::S => 0x8,
        HostKey::D => 0x9,
        HostKey::F => 0xE,
        HostKey::Z => 0xA,
        HostKey::X => 0x0,
        HostKey::C => 0xB,
        HostKey::V => 0xF,
    }
}

impl HostKey {
    /// The number of the keypad key that this host key stands for.
    pub fn number(self) -> (number: u8)
        ensures
            number == keypad_number(self),
            number < 16,
    {
        match self {
            HostKey::Kp1 => 0x1,
            HostKey::Kp2 => 0x2,
            HostKey::Kp3 => 0x3,
            HostKey::Kp4 => 0xC,
            HostKey::Q => 0x4,
            HostKey::W => 0x5,
            HostKey::E => 0x6,
            HostKey::R => 0xD,
            HostKey::A => 0x7,
            HostKey::S => 0x8,
            HostKey::D => 0x9,
            HostKey::F => 0xE,
            HostKey::Z => 0xA,
            HostKey::X => 0x0,
            HostKey::C => 0xB,
            HostKey::V => 0xF,
        }
    }
}

/// No two host keys stand for the same keypad key.
pub proof fn lemma_one_key_each(first: HostKey, second: HostKey)
    requires
        keypad_number(first) == keypad_number(second),
    ensures
        first == second,
{
}

/// Every key of the keypad has a host key.
pub proof fn lemma_every_key_has_a_host_key(number: u8)
    requires
        number < 16,
    ensures
        exists|key: HostKey| keypad_number(key) == number,
{
    assert(keypad_number(HostKey::X) == 0x0);
    assert(keypad_number(HostKey::Kp1) == 0x1);
    assert(keypad_number(HostKey::Kp2) == 0x2);
    assert(keypad_number(HostKey::Kp3) == 0x3);
    assert(keypad_number(HostKey::Q) == 0x4);
    assert(keypad_number(HostKey::W) == 0x5);
    assert(keypad_number(HostKey::E) == 0x6);
    assert(keypad_number(HostKey::A) == 0x7);
    assert(keypad_number(HostKey::S) == 0x8);
    assert(keypad_number(HostKey::D) == 0x9);
    assert(keypad_number(HostKey::Z) == 0xA);
    assert(keypad_number(HostKey::C) == 0xB);
    assert(keypad_number(HostKey::Kp4) == 0xC);
    assert(keypad_number(HostKey::R) == 0xD);
    assert(keypad_number(HostKey::F) == 0xE);
    assert(keypad_number(HostKey::V) == 0xF);
}

} // verus!
