//! Laws of the instruction set, proved of the model that the machine
//! implements.

use vstd::prelude::*;
use crate::decode::Instruction;
use crate::decode::decoded;
use crate::display::bit_at;
use crate::display::lemma_collides_iff_overlap;
use crate::display::lemma_drawn_pixel;
use crate::display::pixel_index;
use crate::error::Fault;
use crate::model::FONT_SIZE;
use crate::model::MachineState;
use crate::semantics::assigned;
use crate::semantics::draws_random;
use crate::semantics::execute;
use crate::semantics::fetched;
use crate::semantics::is_lowest_pressed;
use crate::semantics::lemma_lowest_pressed;
use crate::semantics::lemma_none_pressed;
use crate::semantics::lemma_step_wf;
use crate::semantics::loaded;
use crate::semantics::next_instruction;
use crate::semantics::step;
use crate::semantics::ticked;

verus! {

/// Whether `next` differs from `s` in no register but `x` and the flag
/// register.
pub open spec fn other_registers_kept(s: MachineState, next: MachineState, x: u8) -> bool {
    &&& next.v.len() == s.v.len()
    &&& forall|r: int| 0 <= r < 16 && r != x && r != 15 ==> next.v[r] == s.v[r]
}

/// `7xkk` adds modulo 256 and has no flag: no register but `Vx` changes,
/// the flag register included.
pub proof fn law_add_byte_wraps(s: MachineState, x: u8, kk: u8, random: u8)
    requires
        s.wf(),
        x < 16,
    ensures
        execute(s, Instruction::AddByte(x, kk), random) matches Ok(next) && {
            &&& next.v[x as int] == (s.v[x as int] + kk) % 256
            &&& forall|r: int| 0 <= r < 16 && r != x ==> next.v[r] == s.v[r]
        },
{
}

/// `8xy4` adds modulo 256 and sets the flag register to the carry. This
/// holds whichever registers `x` and `y` name: the same one twice, or the
/// flag register, where the carry then wins over the sum.
pub proof fn law_add_carries(s: MachineState, x: u8, y: u8, random: u8)
    requires
        s.wf(),
        x < 16,
        y < 16,
    ensures
        execute(s, Instruction::Add(x, y), random) matches Ok(next) && {
            &&& next.v[15] == if s.v[x as int] + s.v[y as int] > 255 { 1u8 } else { 0u8 }
            &&& x != 15 ==> next.v[x as int] == (s.v[x as int] + s.v[y as int]) % 256
            &&& other_registers_kept(s, next, x)
        },
{
}

/// `8xy5` subtracts `Vy` from `Vx` modulo 256 and sets the flag register
/// to 1 where nothing was borrowed (`Vx >= Vy`), to 0 otherwise, whichever
/// registers `x` and `y` name.
pub proof fn law_sub_borrows(s: MachineState, x: u8, y: u8, random: u8)
    requires
        s.wf(),
        x < 16,
        y < 16,
    ensures
        execute(s, Instruction::Sub(x, y), random) matches Ok(next) && {
            &&& next.v[15] == if s.v[x as int] >= s.v[y as int] { 1u8 } else { 0u8 }
            &&& x != 15 ==> next.v[x as int] == (s.v[x as int] - s.v[y as int]) % 256
            &&& other_registers_kept(s, next, x)
        },
{
}

/// `8xy7` subtracts `Vx` from `Vy` modulo 256 into `Vx` and sets the flag
/// register to 1 where nothing was borrowed (`Vy >= Vx`), to 0 otherwise,
/// whichever registers `x` and `y` name.
pub proof fn law_sub_from_borrows(s: MachineState, x: u8, y: u8, random: u8)
    requires
        s.wf(),
        x < 16,
        y < 16,
    ensures
        execute(s, Instruction::SubFrom(x, y), random) matches Ok(next) && {
            &&& next.v[15] == if s.v[y as int] >= s.v[x as int] { 1u8 } else { 0u8 }
            &&& x != 15 ==> next.v[x as int] == (s.v[y as int] - s.v[x as int]) % 256
            &&& other_registers_kept(s, next, x)
        },
{
}

/// With `x == y`, `8xy5` and `8xy7` leave zero in `Vx` and report no
/// borrow, and `8xy4` doubles `Vx`: what the general rule gives for two
/// equal operands.
pub proof fn law_same_register_twice(s: MachineState, x: u8, random: u8)
    requires
        s.wf(),
        x < 15,
    ensures
        execute(s, Instruction::Sub(x, x), random) matches Ok(next) && next.v[x as int] == 0
            && next.v[15] == 1,
        execute(s, Instruction::SubFrom(x, x), random) matches Ok(next) && next.v[x as int] == 0
            && next.v[15] == 1,
        execute(s, Instruction::Add(x, x), random) matches Ok(next) && next.v[x as int] == (2
            * s.v[x as int]) % 256 && next.v[15] == if s.v[x as int] >= 128 { 1u8 } else { 0u8 },
{
}

/// `8xy6` puts the lowest bit of `Vx`, as it was before the shift, into
/// the flag register, also where `x` names the flag register itself.
pub proof fn law_shift_right(s: MachineState, x: u8, random: u8)
    requires
        s.wf(),
        x < 16,
    ensures
        execute(s, Instruction::ShiftRight(x), random) matches Ok(next) && {
            &&& next.v[15] == s.v[x as int] % 2
            &&& x != 15 ==> next.v[x as int] == s.v[x as int] / 2
            &&& other_registers_kept(s, next, x)
        },
{
}

/// `8xyE` puts the highest bit of `Vx`, as it was before the shift, into
/// the flag register, also where `x` names the flag register itself.
pub proof fn law_shift_left(s: MachineState, x: u8, random: u8)
    requires
        s.wf(),
        x < 16,
    ensures
        execute(s, Instruction::ShiftLeft(x), random) matches Ok(next) && {
            &&& next.v[15] == s.v[x as int] / 128
            &&& x != 15 ==> next.v[x as int] == (s.v[x as int] * 2) % 256
            &&& other_registers_kept(s, next, x)
        },
{
}

/// After `Dxyn` the flag register is 1 exactly if some set bit of the
/// sprite, in any row and column, landed on a pixel that was on; it is 0
/// otherwise.
pub proof fn law_collision_flag(s: MachineState, x: u8, y: u8, n: u8, random: u8)
    requires
        s.wf(),
        x < 16,
        y < 16,
        n < 16,
        s.i + n <= 4096,
    ensures
        execute(s, Instruction::Draw(x, y, n), random) matches Ok(next) && {
            let overlap = exists|row: int, col: int|
                0 <= row < n && 0 <= col < 8 && bit_at(s.memory[s.i + row], col)
                    && #[trigger] s.display[pixel_index(
                    s.v[x as int] + col,
                    s.v[y as int] + row,
                )];
            &&& overlap ==> next.v[15] == 1
            &&& !overlap ==> next.v[15] == 0
        },
{
    let sprite = crate::display::sprite_at(s.memory, s.i as int, n as int);
    let vx = s.v[x as int] as int;
    let vy = s.v[y as int] as int;
    lemma_collides_iff_overlap(s.display, sprite, vx, vy);
    let overlap = exists|row: int, col: int|
        0 <= row < n && 0 <= col < 8 && bit_at(s.memory[s.i + row], col)
            && #[trigger] s.display[pixel_index(vx + col, vy + row)];
    let in_sprite = exists|row: int, col: int|
        0 <= row < sprite.len() && 0 <= col < 8 && bit_at(sprite[row], col)
            && #[trigger] s.display[pixel_index(vx + col, vy + row)];
    if overlap {
        let (row, col) = choose|row: int, col: int|
            0 <= row < n && 0 <= col < 8 && bit_at(s.memory[s.i + row], col)
                && #[trigger] s.display[pixel_index(vx + col, vy + row)];
        assert(bit_at(sprite[row], col));
        assert(s.display[pixel_index(vx + col, vy + row)]);
    }
    if in_sprite {
        let (row, col) = choose|row: int, col: int|
            0 <= row < sprite.len() && 0 <= col < 8 && bit_at(sprite[row], col)
                && #[trigger] s.display[pixel_index(vx + col, vy + row)];
        assert(bit_at(s.memory[s.i + row], col));
        assert(s.display[pixel_index(vx + col, vy + row)]);
    }
}

/// `Dxyn` toggles, for the sprite bit in row `row` and column `col`, the
/// pixel in column `(Vx + col) mod 64` and row `(Vy + row) mod 32`, if the
/// bit is set: coordinates wrap at the edges, they are not clipped.
pub proof fn law_draw_wraps(s: MachineState, x: u8, y: u8, n: u8, row: int, col: int, random: u8)
    requires
        s.wf(),
        x < 16,
        y < 16,
        n < 16,
        s.i + n <= 4096,
        0 <= row < n,
        0 <= col < 8,
    ensures
        execute(s, Instruction::Draw(x, y, n), random) matches Ok(next) && {
            let p = (s.v[x as int] + col) % 64 + 64 * ((s.v[y as int] + row) % 32);
            next.display[p] == (s.display[p] != bit_at(s.memory[s.i + row], col))
        },
{
    let sprite = crate::display::sprite_at(s.memory, s.i as int, n as int);
    lemma_drawn_pixel(s.display, sprite, s.v[x as int] as int, s.v[y as int] as int, row, col);
}

/// `Fx0A` with no key down changes nothing, the program counter
/// included.
pub proof fn law_wait_key_stalls(s: MachineState, x: u8, random: u8)
    requires
        forall|k: int| 0 <= k < s.keys.len() ==> !s.keys[k],
    ensures
        execute(s, Instruction::WaitKey(x), random) == Ok::<MachineState, Fault>(s),
{
    lemma_none_pressed(s.keys);
}

/// `Fx0A` with a key down puts the number of the lowest such key into
/// `Vx` and moves on to the next instruction. (An instruction that was
/// fetched lies below address 4095.)
pub proof fn law_wait_key_takes_lowest(s: MachineState, x: u8, key: u8, random: u8)
    requires
        s.wf(),
        s.pc <= 4094,
        x < 16,
        is_lowest_pressed(s.keys, key as int),
    ensures
        execute(s, Instruction::WaitKey(x), random) matches Ok(next) && {
            &&& next == assigned(s, x, key)
            &&& next.v[x as int] == key
            &&& next.pc == s.pc + 2
        },
{
    lemma_lowest_pressed(s.keys, key as int);
}

/// The state after as many cycles as `randoms` has bytes, each cycle
/// drawing its byte from there, as long as no cycle faults.
pub open spec fn run(s: MachineState, randoms: Seq<u8>) -> Result<MachineState, Fault>
    decreases randoms.len(),
{
    if randoms.len() == 0 {
        Ok(s)
    } else {
        match run(s, randoms.drop_last()) {
            Ok(before_last) => step(before_last, randoms.last()),
            Err(fault) => Err(fault),
        }
    }
}

/// A machine that waits for a key while none is down stays as it is for
/// any number of cycles: each cycle carries out the same wait again.
pub proof fn law_wait_key_stalls_forever(s: MachineState, x: u8, randoms: Seq<u8>)
    requires
        fetched(s) matches Some(word) && decoded(word) == Some(Instruction::WaitKey(x)),
        forall|k: int| 0 <= k < s.keys.len() ==> !s.keys[k],
    ensures
        run(s, randoms) == Ok::<MachineState, Fault>(s),
    decreases randoms.len(),
{
    if randoms.len() > 0 {
        law_wait_key_stalls_forever(s, x, randoms.drop_last());
        law_wait_key_stalls(s, x, randoms.last());
    }
}

/// `00EE` with no call pending is a fault, not a read of whatever lies
/// below the stack.
pub proof fn law_return_without_call(s: MachineState, random: u8)
    requires
        s.stack.len() == 0,
    ensures
        execute(s, Instruction::Return, random) == Err::<MachineState, Fault>(
            Fault::StackUnderflow,
        ),
{
}

/// `2nnn` followed by `00EE` comes back to the instruction after the
/// call, with the stack as it was.
pub proof fn law_call_then_return(s: MachineState, addr: u16, random: u8)
    requires
        s.stack.len() < 16,
    ensures
        execute(s, Instruction::Call(addr), random) matches Ok(inside) && execute(
            inside,
            Instruction::Return,
            random,
        ) matches Ok(back) && back == (MachineState { pc: (s.pc + 2) as u16, ..s }),
{
    let inside = execute(s, Instruction::Call(addr), random)->Ok_0;
    assert(inside.stack.drop_last() =~= s.stack);
}

/// Only the random-number instruction depends on the byte drawn: any
/// other cycle has the same outcome whatever the byte.
pub proof fn law_random_matters_once(s: MachineState, first: u8, second: u8)
    requires
        !draws_random(s),
    ensures
        step(s, first) == step(s, second),
{
}

/// A word that is no instruction is a fault that names the word; it is
/// never passed over.
pub proof fn law_unknown_word_is_reported(s: MachineState, random: u8)
    requires
        fetched(s) matches Some(word) && decoded(word) is None,
    ensures
        step(s, random) == Err::<MachineState, Fault>(Fault::UnknownOpcode(fetched(s)->Some_0)),
{
}

/// The shape of a machine state, and with it the bound of sixteen on the
/// depth of the call stack, holds after any number of cycles.
pub proof fn law_run_keeps_shape(s: MachineState, randoms: Seq<u8>)
    requires
        s.wf(),
    ensures
        run(s, randoms) matches Ok(last) ==> last.wf(),
    decreases randoms.len(),
{
    if randoms.len() > 0 {
        law_run_keeps_shape(s, randoms.drop_last());
        if let Ok(before_last) = run(s, randoms.drop_last()) {
            lemma_step_wf(before_last, randoms.last());
        }
    }
}

/// `Fx29` with a hexadecimal digit in `Vx` points the address register at
/// that digit's glyph, five bytes that lie inside the font.
pub proof fn law_glyph_lies_in_font(s: MachineState, x: u8, random: u8)
    requires
        s.wf(),
        x < 16,
        s.v[x as int] < 16,
    ensures
        execute(s, Instruction::Glyph(x), random) matches Ok(next) && {
            &&& next.i == 5 * s.v[x as int]
            &&& next.i + 5 <= FONT_SIZE
            &&& next.memory == s.memory
        },
{
}

/// `Fx33` stores three decimal digits that spell `Vx`.
pub proof fn law_decimal_spells_the_value(s: MachineState, x: u8, random: u8)
    requires
        s.wf(),
        x < 16,
        s.i + 2 < 4096,
    ensures
        execute(s, Instruction::Decimal(x), random) matches Ok(next) && {
            let hundreds = next.memory[s.i as int];
            let tens = next.memory[s.i + 1];
            let ones = next.memory[s.i + 2];
            &&& hundreds < 10 && tens < 10 && ones < 10
            &&& 100 * hundreds + 10 * tens + ones == s.v[x as int]
            &&& forall|a: int|
                0 <= a < 4096 && !(s.i <= a <= s.i + 2) ==> next.memory[a] == s.memory[a]
        },
{
}

/// `Fx55` followed by `Fx65` with the same `x` leaves the registers as
/// they were.
pub proof fn law_store_then_load(s: MachineState, x: u8, random: u8)
    requires
        s.wf(),
        x < 16,
        s.i + x < 4096,
    ensures
        execute(s, Instruction::Store(x), random) matches Ok(stored) && execute(
            stored,
            Instruction::Load(x),
            random,
        ) matches Ok(loaded) && loaded.v == s.v && loaded.memory == stored.memory,
{
    let stored = execute(s, Instruction::Store(x), random)->Ok_0;
    let loaded = execute(stored, Instruction::Load(x), random)->Ok_0;
    assert(loaded.v =~= s.v);
}

/// The state after `n` ticks of the timers.
pub open spec fn ticked_times(s: MachineState, n: nat) -> MachineState
    decreases n,
{
    if n == 0 {
        s
    } else {
        ticked(ticked_times(s, (n - 1) as nat))
    }
}

/// After `n` ticks each timer has gone down by `n`, or to zero if it held
/// less; nothing else has changed.
pub proof fn law_timers_count_down(s: MachineState, n: nat)
    ensures
        ticked_times(s, n) == (MachineState {
            delay: if s.delay >= n { (s.delay - n) as u8 } else { 0 },
            sound: if s.sound >= n { (s.sound - n) as u8 } else { 0 },
            ..s
        }),
    decreases n,
{
    if n > 0 {
        law_timers_count_down(s, (n - 1) as nat);
    }
}

/// No instruction writes the key latch: after any cycle the keys are as
/// the host left them.
pub proof fn law_keys_only_read(s: MachineState, random: u8)
    ensures
        step(s, random) matches Ok(next) ==> next.keys == s.keys,
{
}

/// No instruction but `Fx15` and `Fx18` writes a timer: cycles do not make
/// the timers run.
pub proof fn law_cycles_leave_timers(s: MachineState, random: u8)
    requires
        !(next_instruction(s) matches Ok(Instruction::SetDelay(_))),
        !(next_instruction(s) matches Ok(Instruction::SetSound(_))),
    ensures
        step(s, random) matches Ok(next) ==> next.delay == s.delay && next.sound == s.sound,
{
}

/// Loading a program touches nothing but memory from `0x200` on and the
/// program counter.
pub proof fn law_load_keeps_the_rest(s: MachineState, rom: Seq<u8>)
    requires
        s.wf(),
        rom.len() <= 3583,
    ensures
        loaded(s, rom).wf(),
        loaded(s, rom).pc == 0x200,
        loaded(s, rom).memory.subrange(0, 0x200) == s.memory.subrange(0, 0x200),
        loaded(s, rom).memory.subrange(0x200, 0x200 + rom.len() as int) == rom,
        loaded(s, rom).memory.subrange(0x200 + rom.len() as int, 4096) == s.memory.subrange(
            0x200 + rom.len() as int,
            4096,
        ),
        loaded(s, rom) == (MachineState { memory: loaded(s, rom).memory, pc: 0x200, ..s }),
{
}

} // verus!
