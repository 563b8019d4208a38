//! What each instruction does, as a function from one machine state to the
//! next.
//!
//! An instruction that cannot be carried out yields a fault and no next
//! state: the machine then stays as it was. Every instruction reads its
//! operands before it writes anything, and an instruction that produces a
//! flag writes the flag register last, so the flag survives even where the
//! flag register is also the destination.

use vstd::prelude::*;
use crate::decode::Instruction;
use crate::decode::decoded;
use crate::decode::word_of;
use crate::display::collides;
use crate::display::drawn;
use crate::display::sprite_at;
use crate::error::Fault;
use crate::model::FLAG;
use crate::model::MachineState;
use crate::model::PROGRAM_START;

verus! {

/// A flag as the byte that is stored in the flag register.
pub open spec fn flag_byte(flag: bool) -> u8 {
    if flag {
        1
    } else {
        0
    }
}

/// Whether `k` is the lowest-numbered key that is down.
pub open spec fn is_lowest_pressed(keys: Seq<bool>, k: int) -> bool {
    &&& 0 <= k < keys.len()
    &&& keys[k]
    &&& forall|j: int| 0 <= j < k ==> !keys[j]
}

/// The lowest-numbered key that is down, if any is.
pub open spec fn lowest_pressed(keys: Seq<bool>) -> Option<u8> {
    if exists|k: int| is_lowest_pressed(keys, k) {
        Some((choose|k: int| is_lowest_pressed(keys, k)) as u8)
    } else {
        None
    }
}

/// A key is the lowest one down exactly if `lowest_pressed` names it.
pub proof fn lemma_lowest_pressed(keys: Seq<bool>, k: int)
    requires
        keys.len() <= 256,
    ensures
        is_lowest_pressed(keys, k) <==> lowest_pressed(keys) == Some(k as u8) && 0 <= k < 256,
{
    if exists|j: int| is_lowest_pressed(keys, j) {
        let c = choose|j: int| is_lowest_pressed(keys, j);
        if is_lowest_pressed(keys, k) {
            assert(c == k);
        }
    }
}

/// No key is down exactly if `lowest_pressed` names none.
pub proof fn lemma_none_pressed(keys: Seq<bool>)
    ensures
        lowest_pressed(keys) is None <==> forall|k: int| 0 <= k < keys.len() ==> !keys[k],
    decreases keys.len(),
{
    if exists|k: int| 0 <= k < keys.len() && keys[k] {
        let k = choose|k: int| 0 <= k < keys.len() && keys[k];
        lemma_some_lowest(keys, k);
    }
}

/// Below any key that is down there is a lowest one.
proof fn lemma_some_lowest(keys: Seq<bool>, k: int)
    requires
        0 <= k < keys.len(),
        keys[k],
    ensures
        exists|j: int| is_lowest_pressed(keys, j),
    decreases k,
{
    if exists|j: int| 0 <= j < k && keys[j] {
        let j = choose|j: int| 0 <= j < k && keys[j];
        lemma_some_lowest(keys, j);
    } else {
        assert(is_lowest_pressed(keys, k));
    }
}

/// The state after an instruction that only moves the program counter on:
/// past the next instruction if `taken`, to the next one otherwise.
pub open spec fn skipped(s: MachineState, taken: bool) -> MachineState {
    MachineState { pc: if taken { (s.pc + 4) as u16 } else { (s.pc + 2) as u16 }, ..s }
}

/// The state after an instruction that writes `value` to register `x`.
pub open spec fn assigned(s: MachineState, x: u8, value: u8) -> MachineState {
    MachineState { v: s.v.update(x as int, value), pc: (s.pc + 2) as u16, ..s }
}

/// The state after an instruction that writes `value` to register `x` and
/// then `flag` to the flag register.
pub open spec fn assigned_with_flag(s: MachineState, x: u8, value: u8, flag: bool) -> MachineState {
    MachineState {
        v: s.v.update(x as int, value).update(FLAG as int, flag_byte(flag)),
        pc: (s.pc + 2) as u16,
        ..s
    }
}

/// Memory after the three decimal digits of `value` have been stored from
/// address `at`: hundreds, tens, ones.
pub open spec fn with_decimal(memory: Seq<u8>, at: int, value: u8) -> Seq<u8> {
    memory.update(at, value / 100).update(at + 1, (value / 10) % 10).update(at + 2, value % 10)
}

/// Memory after registers `0..=x` have been stored from address `at`.
pub open spec fn with_registers(memory: Seq<u8>, at: int, v: Seq<u8>, x: u8) -> Seq<u8> {
    Seq::new(memory.len(), |a: int| if at <= a <= at + x { v[a - at] } else { memory[a] })
}

/// The registers after `0..=x` have been loaded from address `at`.
pub open spec fn from_memory(v: Seq<u8>, memory: Seq<u8>, at: int, x: u8) -> Seq<u8> {
    Seq::new(v.len(), |r: int| if r <= x { memory[at + r] } else { v[r] })
}

/// `00E0`: every pixel goes off.
pub open spec fn cleared(s: MachineState) -> MachineState {
    MachineState { display: Seq::new(2048, |p: int| false), pc: (s.pc + 2) as u16, ..s }
}

/// `00EE`: execution goes on at the most recent return address, which
/// leaves the stack. With no call to return from, this is a fault.
pub open spec fn returned(s: MachineState) -> Result<MachineState, Fault> {
    if s.stack.len() == 0 {
        Err(Fault::StackUnderflow)
    } else {
        Ok(MachineState { pc: s.stack.last(), stack: s.stack.drop_last(), ..s })
    }
}

/// `2nnn`: the address of the next instruction goes onto the stack and
/// execution goes on at `addr`. With sixteen calls pending, this is a
/// fault.
pub open spec fn called(s: MachineState, addr: u16) -> Result<MachineState, Fault> {
    if s.stack.len() >= 16 {
        Err(Fault::StackOverflow)
    } else {
        Ok(MachineState { pc: addr, stack: s.stack.push((s.pc + 2) as u16), ..s })
    }
}

/// Execution goes on at `addr`.
pub open spec fn jumped(s: MachineState, addr: u16) -> MachineState {
    MachineState { pc: addr, ..s }
}

/// The address register takes `value`.
pub open spec fn indexed(s: MachineState, value: u16) -> MachineState {
    MachineState { i: value, pc: (s.pc + 2) as u16, ..s }
}

/// `Dxyn`: the sprite of `n` rows at the address register is drawn at
/// `(Vx, Vy)`, and the flag register says whether it collided. The
/// coordinates are read before the flag is written. A sprite that reaches
/// past the end of memory is a fault.
pub open spec fn drew(s: MachineState, x: u8, y: u8, n: u8) -> Result<MachineState, Fault> {
    if n > 0 && s.i + n > 4096 {
        Err(Fault::AddressOutOfBounds)
    } else {
        let sprite = sprite_at(s.memory, s.i as int, n as int);
        let vx = s.v[x as int] as int;
        let vy = s.v[y as int] as int;
        Ok(
            MachineState {
                display: drawn(s.display, sprite, vx, vy),
                v: s.v.update(FLAG as int, flag_byte(collides(s.display, sprite, vx, vy))),
                pc: (s.pc + 2) as u16,
                ..s
            },
        )
    }
}

/// `Ex9E` and `ExA1`: the next instruction is skipped if key `Vx` is down
/// (`wanted`) or up (`!wanted`). A `Vx` above `0xF` names no key and is a
/// fault.
pub open spec fn key_skipped(s: MachineState, x: u8, wanted: bool) -> Result<
    MachineState,
    Fault,
> {
    if s.v[x as int] >= 16 {
        Err(Fault::KeyOutOfRange)
    } else {
        Ok(skipped(s, s.keys[s.v[x as int] as int] == wanted))
    }
}

/// `Fx0A`: with no key down nothing changes, so that the next cycle
/// fetches this instruction again; otherwise `Vx` takes the number of the
/// lowest key that is down and execution moves on.
pub open spec fn waited(s: MachineState, x: u8) -> MachineState {
    match lowest_pressed(s.keys) {
        Some(key) => assigned(s, x, key),
        None => s,
    }
}

/// `Fx15`: the delay timer takes `value`.
pub open spec fn delay_set(s: MachineState, value: u8) -> MachineState {
    MachineState { delay: value, pc: (s.pc + 2) as u16, ..s }
}

/// `Fx18`: the sound timer takes `value`.
pub open spec fn sound_set(s: MachineState, value: u8) -> MachineState {
    MachineState { sound: value, pc: (s.pc + 2) as u16, ..s }
}

/// `Fx33`: the decimal digits of `Vx` go to the three bytes at the address
/// register. If they do not all lie inside memory, this is a fault.
pub open spec fn decimal_stored(s: MachineState, x: u8) -> Result<MachineState, Fault> {
    if s.i + 2 >= 4096 {
        Err(Fault::AddressOutOfBounds)
    } else {
        Ok(
            MachineState {
                memory: with_decimal(s.memory, s.i as int, s.v[x as int]),
                pc: (s.pc + 2) as u16,
                ..s
            },
        )
    }
}

/// `Fx55`: registers `0..=x` go to memory from the address register on.
/// If they do not all fit inside memory, this is a fault.
pub open spec fn registers_stored(s: MachineState, x: u8) -> Result<MachineState, Fault> {
    if s.i + x >= 4096 {
        Err(Fault::AddressOutOfBounds)
    } else {
        Ok(
            MachineState {
                memory: with_registers(s.memory, s.i as int, s.v, x),
                pc: (s.pc + 2) as u16,
                ..s
            },
        )
    }
}

/// `Fx65`: registers `0..=x` are read from memory from the address
/// register on. If that reaches past the end of memory, this is a fault.
pub open spec fn registers_loaded(s: MachineState, x: u8) -> Result<MachineState, Fault> {
    if s.i + x >= 4096 {
        Err(Fault::AddressOutOfBounds)
    } else {
        Ok(
            MachineState {
                v: from_memory(s.v, s.memory, s.i as int, x),
                pc: (s.pc + 2) as u16,
                ..s
            },
        )
    }
}

/// The outcome of carrying out `instruction`, which was fetched at
/// `s.pc`, with `random` as the byte that the random-number instruction
/// draws.
pub open spec fn execute(s: MachineState, instruction: Instruction, random: u8) -> Result<
    MachineState,
    Fault,
> {
    match instruction {
        Instruction::ClearScreen => Ok(cleared(s)),
        Instruction::Return => returned(s),
        Instruction::Jump(nnn) => Ok(jumped(s, nnn)),
        Instruction::Call(nnn) => called(s, nnn),
        Instruction::SkipIfByte(x, kk) => Ok(skipped(s, s.v[x as int] == kk)),
        Instruction::SkipUnlessByte(x, kk) => Ok(skipped(s, s.v[x as int] != kk)),
        Instruction::SkipIfSame(x, y) => Ok(skipped(s, s.v[x as int] == s.v[y as int])),
        Instruction::SkipUnlessSame(x, y) => Ok(skipped(s, s.v[x as int] != s.v[y as int])),
        Instruction::SetByte(x, kk) => Ok(assigned(s, x, kk)),
        Instruction::AddByte(x, kk) => Ok(assigned(s, x, ((s.v[x as int] + kk) % 256) as u8)),
        Instruction::Assign(x, y) => Ok(assigned(s, x, s.v[y as int])),
        Instruction::Or(x, y) => Ok(assigned(s, x, s.v[x as int] | s.v[y as int])),
        Instruction::And(x, y) => Ok(assigned(s, x, s.v[x as int] & s.v[y as int])),
        Instruction::Xor(x, y) => Ok(assigned(s, x, s.v[x as int] ^ s.v[y as int])),
        Instruction::Add(x, y) => {
            let sum = s.v[x as int] + s.v[y as int];
            Ok(assigned_with_flag(s, x, (sum % 256) as u8, sum > 255))
        },
        Instruction::Sub(x, y) => {
            let difference = s.v[x as int] - s.v[y as int];
            Ok(assigned_with_flag(s, x, (difference % 256) as u8, difference >= 0))
        },
        Instruction::SubFrom(x, y) => {
            let difference = s.v[y as int] - s.v[x as int];
            Ok(assigned_with_flag(s, x, (difference % 256) as u8, difference >= 0))
        },
        Instruction::ShiftRight(x) => Ok(
            assigned_with_flag(s, x, s.v[x as int] / 2, s.v[x as int] % 2 == 1),
        ),
        Instruction::ShiftLeft(x) => Ok(
            assigned_with_flag(s, x, ((s.v[x as int] * 2) % 256) as u8, s.v[x as int] >= 128),
        ),
        Instruction::SetIndex(nnn) => Ok(indexed(s, nnn)),
        Instruction::JumpOffset(nnn) => Ok(jumped(s, (nnn + s.v[0]) as u16)),
        Instruction::Random(x, kk) => Ok(assigned(s, x, random & kk)),
        Instruction::Draw(x, y, n) => drew(s, x, y, n),
        Instruction::SkipIfKey(x) => key_skipped(s, x, true),
        Instruction::SkipUnlessKey(x) => key_skipped(s, x, false),
        Instruction::ReadDelay(x) => Ok(assigned(s, x, s.delay)),
        Instruction::WaitKey(x) => Ok(waited(s, x)),
        Instruction::SetDelay(x) => Ok(delay_set(s, s.v[x as int])),
        Instruction::SetSound(x) => Ok(sound_set(s, s.v[x as int])),
        Instruction::AddIndex(x) => Ok(indexed(s, ((s.i + s.v[x as int]) % 0x10000) as u16)),
        Instruction::Glyph(x) => Ok(indexed(s, (s.v[x as int] * 5) as u16)),
        Instruction::Decimal(x) => decimal_stored(s, x),
        Instruction::Store(x) => registers_stored(s, x),
        Instruction::Load(x) => registers_loaded(s, x),
    }
}

/// Whether a machine that was in `before` and is now in `after`, having
/// reported `result`, has done what `expected` asks: reached the expected
/// state, or reported the expected fault and stayed as it was.
pub open spec fn carried_out(
    expected: Result<MachineState, Fault>,
    before: MachineState,
    after: MachineState,
    result: Result<(), Fault>,
) -> bool {
    match expected {
        Ok(next) => result is Ok && after == next,
        Err(fault) => result == Err::<(), Fault>(fault) && after == before,
    }
}

/// The instruction word at the program counter, if both of its bytes lie
/// inside memory.
pub open spec fn fetched(s: MachineState) -> Option<u16> {
    if s.pc + 1 < 4096 {
        Some(word_of(s.memory[s.pc as int], s.memory[s.pc + 1]))
    } else {
        None
    }
}

/// The instruction that the next cycle carries out, or the fault that
/// keeps it from having one: a program counter at the very end of memory,
/// or a word that is no instruction.
pub open spec fn next_instruction(s: MachineState) -> Result<Instruction, Fault> {
    match fetched(s) {
        None => Err(Fault::PcOutOfBounds),
        Some(word) => match decoded(word) {
            None => Err(Fault::UnknownOpcode(word)),
            Some(instruction) => Ok(instruction),
        },
    }
}

/// One cycle: fetch the word at the program counter, decode it, carry it
/// out.
pub open spec fn step(s: MachineState, random: u8) -> Result<MachineState, Fault> {
    match next_instruction(s) {
        Err(fault) => Err(fault),
        Ok(instruction) => execute(s, instruction, random),
    }
}

/// Whether the next cycle carries out the random-number instruction, the
/// only one whose outcome depends on the byte drawn.
pub open spec fn draws_random(s: MachineState) -> bool {
    next_instruction(s) matches Ok(Instruction::Random(_, _))
}

/// One tick of the timers: each goes down by one unless it is zero.
pub open spec fn ticked(s: MachineState) -> MachineState {
    MachineState {
        delay: if s.delay > 0 { (s.delay - 1) as u8 } else { 0 },
        sound: if s.sound > 0 { (s.sound - 1) as u8 } else { 0 },
        ..s
    }
}

/// The state after `rom` has been loaded: its bytes from address `0x200`
/// on, the program counter at `0x200`, nothing else touched.
pub open spec fn loaded(s: MachineState, rom: Seq<u8>) -> MachineState {
    MachineState {
        memory: Seq::new(
            s.memory.len(),
            |a: int|
                if PROGRAM_START <= a < PROGRAM_START + rom.len() {
                    rom[a - PROGRAM_START]
                } else {
                    s.memory[a]
                },
        ),
        pc: PROGRAM_START,
        ..s
    }
}

/// Every outcome of a cycle has the shape of a machine state.
pub proof fn lemma_step_wf(s: MachineState, random: u8)
    requires
        s.wf(),
    ensures
        step(s, random) matches Ok(next) ==> next.wf(),
{
}

} // verus!
