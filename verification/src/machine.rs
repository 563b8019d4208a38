//! The machine itself: its state, and the operations that load a program,
//! run one instruction and tick the timers.

use vstd::prelude::*;
use rand::rngs::ThreadRng;
use crate::decode::Instruction;
use crate::decode::decode;
use crate::decode::join;
use crate::decode::lemma_decoded_wf;
use crate::display::clear;
use crate::display::draw_sprite;
use crate::display::pixel_index;
use crate::entropy::random_byte;
use crate::error::Error;
use crate::error::Fault;
use crate::model::FLAG;
use crate::model::FONT;
use crate::model::MAX_ROM_SIZE;
use crate::model::MachineState;
use crate::model::PROGRAM_START;
use crate::semantics::assigned;
use crate::semantics::assigned_with_flag;
use crate::semantics::called;
use crate::semantics::carried_out;
use crate::semantics::cleared;
use crate::semantics::decimal_stored;
use crate::semantics::delay_set;
use crate::semantics::draws_random;
use crate::semantics::drew;
use crate::semantics::execute;
use crate::semantics::fetched;
use crate::semantics::from_memory;
use crate::semantics::indexed;
use crate::semantics::jumped;
use crate::semantics::key_skipped;
use crate::semantics::lemma_lowest_pressed;
use crate::semantics::lemma_none_pressed;
use crate::semantics::loaded;
use crate::semantics::lowest_pressed;
use crate::semantics::next_instruction;
use crate::semantics::registers_loaded;
use crate::semantics::registers_stored;
use crate::semantics::returned;
use crate::semantics::skipped;
use crate::semantics::sound_set;
use crate::semantics::step;
use crate::semantics::ticked;
use crate::semantics::waited;
use crate::semantics::with_registers;
use crate::stack::CallStack;

verus! {

/// A CHIP-8 machine. Its view is the `MachineState` that a program can
/// observe; the random-number generator is no part of it.
pub struct Chip8 {
    memory: [u8; 4096],
    v: [u8; 16],
    stack: CallStack,
    display: [bool; 2048],
    keys: [bool; 16],
    i: u16,
    pc: u16,
    delay: u8,
    sound: u8,
    rng: ThreadRng,
}

impl View for Chip8 {
    type V = MachineState;

    closed spec fn view(&self) -> MachineState {
        MachineState {
            memory: self.memory@,
            v: self.v@,
            i: self.i,
            pc: self.pc,
            stack: self.stack@,
            delay: self.delay,
            sound: self.sound,
            display: self.display@,
            keys: self.keys@,
        }
    }
}

/// Whether a cycle that started in `before` and drew `random` may end in
/// `after` with `result`: in the next state of the model, or, where the
/// model faults, unchanged and with that fault.
pub open spec fn cycle_outcome(
    before: MachineState,
    random: u8,
    after: MachineState,
    result: Result<(), Error>,
) -> bool {
    match step(before, random) {
        Ok(next) => result is Ok && after == next,
        Err(fault) => result == Err::<(), Error>(Error::IllegalState(fault)) && after == before,
    }
}

/// The lowest-numbered key that is down, if any is.
fn first_pressed(keys: &[bool; 16]) -> (key: Option<u8>)
    ensures
        key == lowest_pressed(keys@),
{
    let mut k: u8 = 0;
    while k < 16
        invariant
            k <= 16,
            forall|j: int| 0 <= j < k ==> !keys@[j],
        decreases 16 - k,
    {
        if keys[k as usize] {
            proof {
                lemma_lowest_pressed(keys@, k as int);
            }
            return Some(k);
        }
        k = k + 1;
    }
    proof {
        lemma_none_pressed(keys@);
    }
    None
}

impl Chip8 {
    /// Every machine's view has the shape of a machine state.
    pub proof fn lemma_view_wf(self)
        ensures
            self@.wf(),
    {
        self.stack.lemma_bounded();
    }

    /// A machine with the font at the bottom of memory and everything else
    /// zero, off or empty. The program counter is zero until a program is
    /// loaded.
    pub fn new() -> (machine: Chip8)
        ensures
            machine@ == MachineState::initial(),
    {
        let mut memory = [0u8; 4096];
        let mut a: usize = 0;
        while a < 80
            invariant
                a <= 80,
                forall|j: int| 0 <= j < a ==> memory@[j] == FONT@[j],
                forall|j: int| a <= j < 4096 ==> memory@[j] == 0,
            decreases 80 - a,
        {
            memory[a] = FONT[a];
            a = a + 1;
        }
        let machine = Chip8 {
            memory,
            v: [0u8; 16],
            stack: CallStack::new(),
            display: [false; 2048],
            keys: [false; 16],
            i: 0,
            pc: 0,
            delay: 0,
            sound: 0,
            rng: rand::thread_rng(),
        };
        assert(machine@ =~= MachineState::initial());
        machine
    }

    /// Copies `rom` into memory from address `0x200` and points the
    /// program counter there. Registers, stack, timers, display and keys
    /// keep their values, as does memory outside the image. An image of
    /// more than 3583 bytes is refused and changes nothing.
    pub fn load(&mut self, rom: &[u8]) -> (result: Result<(), Error>)
        ensures
            rom@.len() <= MAX_ROM_SIZE ==> result is Ok && final(self)@ == loaded(
                old(self)@,
                rom@,
            ),
            rom@.len() > MAX_ROM_SIZE ==> result == Err::<(), Error>(
                Error::RomTooLarge(rom@.len() as u64),
            ) && final(self)@ == old(self)@,
    {
        let size = rom.len();
        if size > MAX_ROM_SIZE {
            return Err(Error::RomTooLarge(size as u64));
        }
        let mut k: usize = 0;
        while k < size
            invariant
                k <= size <= MAX_ROM_SIZE,
                size == rom@.len(),
                self.v == old(self).v,
                self.stack == old(self).stack,
                self.display == old(self).display,
                self.keys == old(self).keys,
                self.i == old(self).i,
                self.delay == old(self).delay,
                self.sound == old(self).sound,
                forall|a: int|
                    0 <= a < 4096 ==> self.memory@[a] == if PROGRAM_START <= a < PROGRAM_START
                        + k {
                        rom@[a - PROGRAM_START]
                    } else {
                        old(self).memory@[a]
                    },
            decreases size - k,
        {
            self.memory[PROGRAM_START as usize + k] = rom[k];
            k = k + 1;
        }
        self.pc = PROGRAM_START;
        assert(self@ =~= loaded(old(self)@, rom@));
        Ok(())
    }

    /// Lets the timers tick once: each goes down by one unless it is zero.
    /// Nothing else changes.
    pub fn timer(&mut self)
        ensures
            final(self)@ == ticked(old(self)@),
    {
        if self.delay > 0 {
            self.delay = self.delay - 1;
        }
        if self.sound > 0 {
            self.sound = self.sound - 1;
        }
    }

    /// The instruction word at the program counter.
    fn fetch(&self) -> (word: Option<u16>)
        ensures
            word == fetched(self@),
    {
        if self.pc < 4095 {
            Some(join(self.memory[self.pc as usize], self.memory[self.pc as usize + 1]))
        } else {
            None
        }
    }

    fn skip_if(&mut self, taken: bool)
        requires
            old(self)@.pc <= 4094,
        ensures
            final(self)@ == skipped(old(self)@, taken),
    {
        self.pc = if taken {
            self.pc + 4
        } else {
            self.pc + 2
        };
    }

    fn assign(&mut self, x: u8, value: u8)
        requires
            old(self)@.pc <= 4094,
            x < 16,
        ensures
            final(self)@ == assigned(old(self)@, x, value),
    {
        self.v[x as usize] = value;
        self.pc = self.pc + 2;
    }

    fn assign_with_flag(&mut self, x: u8, value: u8, flag: bool)
        requires
            old(self)@.pc <= 4094,
            x < 16,
        ensures
            final(self)@ == assigned_with_flag(old(self)@, x, value, flag),
    {
        self.v[x as usize] = value;
        self.v[FLAG] = if flag {
            1
        } else {
            0
        };
        self.pc = self.pc + 2;
    }
    fn clear_screen(&mut self)
        requires
            old(self)@.pc <= 4094,
        ensures
            final(self)@ == cleared(old(self)@),
    {
        clear(&mut self.display);
        self.pc = self.pc + 2;
    }

    fn ret(&mut self) -> (result: Result<(), Fault>)
        ensures
            carried_out(returned(old(self)@), old(self)@, final(self)@, result),
    {
        match self.stack.pop() {
            Some(addr) => {
                self.pc = addr;
                Ok(())
            },
            None => Err(Fault::StackUnderflow),
        }
    }

    fn call(&mut self, addr: u16) -> (result: Result<(), Fault>)
        requires
            old(self)@.pc <= 4094,
        ensures
            carried_out(called(old(self)@, addr), old(self)@, final(self)@, result),
    {
        if self.stack.push(self.pc + 2) {
            self.pc = addr;
            Ok(())
        } else {
            Err(Fault::StackOverflow)
        }
    }

    fn jump(&mut self, addr: u16)
        ensures
            final(self)@ == jumped(old(self)@, addr),
    {
        self.pc = addr;
    }

    fn set_index(&mut self, value: u16)
        requires
            old(self)@.pc <= 4094,
        ensures
            final(self)@ == indexed(old(self)@, value),
    {
        self.i = value;
        self.pc = self.pc + 2;
    }

    fn draw(&mut self, x: u8, y: u8, n: u8) -> (result: Result<(), Fault>)
        requires
            old(self)@.pc <= 4094,
            x < 16,
            y < 16,
            n < 16,
        ensures
            carried_out(drew(old(self)@, x, y, n), old(self)@, final(self)@, result),
    {
        if n > 0 && self.i as usize + n as usize > 4096 {
            return Err(Fault::AddressOutOfBounds);
        }
        let vx = self.v[x as usize];
        let vy = self.v[y as usize];
        let collision = draw_sprite(
            &mut self.display,
            &self.memory,
            self.i as usize,
            n as usize,
            vx,
            vy,
        );
        self.v[FLAG] = if collision {
            1
        } else {
            0
        };
        self.pc = self.pc + 2;
        Ok(())
    }

    fn key_skip(&mut self, x: u8, wanted: bool) -> (result: Result<(), Fault>)
        requires
            old(self)@.pc <= 4094,
            x < 16,
        ensures
            carried_out(key_skipped(old(self)@, x, wanted), old(self)@, final(self)@, result),
    {
        let key = self.v[x as usize];
        if key >= 16 {
            return Err(Fault::KeyOutOfRange);
        }
        let taken = self.keys[key as usize] == wanted;
        self.skip_if(taken);
        Ok(())
    }

    fn wait_key(&mut self, x: u8)
        requires
            old(self)@.pc <= 4094,
            x < 16,
        ensures
            final(self)@ == waited(old(self)@, x),
    {
        match first_pressed(&self.keys) {
            Some(key) => {
                self.assign(x, key);
            },
            None => {},
        }
    }

    fn set_delay(&mut self, value: u8)
        requires
            old(self)@.pc <= 4094,
        ensures
            final(self)@ == delay_set(old(self)@, value),
    {
        self.delay = value;
        self.pc = self.pc + 2;
    }

    fn set_sound(&mut self, value: u8)
        requires
            old(self)@.pc <= 4094,
        ensures
            final(self)@ == sound_set(old(self)@, value),
    {
        self.sound = value;
        self.pc = self.pc + 2;
    }

    fn store_decimal(&mut self, x: u8) -> (result: Result<(), Fault>)
        requires
            old(self)@.pc <= 4094,
            x < 16,
        ensures
            carried_out(decimal_stored(old(self)@, x), old(self)@, final(self)@, result),
    {
        if self.i >= 4094 {
            return Err(Fault::AddressOutOfBounds);
        }
        let value = self.v[x as usize];
        let at = self.i as usize;
        self.memory[at] = value / 100;
        self.memory[at + 1] = (value / 10) % 10;
        self.memory[at + 2] = value % 10;
        self.pc = self.pc + 2;
        Ok(())
    }

    fn store_registers(&mut self, x: u8) -> (result: Result<(), Fault>)
        requires
            old(self)@.pc <= 4094,
            x < 16,
        ensures
            carried_out(registers_stored(old(self)@, x), old(self)@, final(self)@, result),
    {
        if self.i as usize + x as usize >= 4096 {
            return Err(Fault::AddressOutOfBounds);
        }
        let base = self.i as usize;
        let mut r: usize = 0;
        while r <= x as usize
            invariant
                r <= x + 1,
                x < 16,
                base == old(self).i,
                base + x < 4096,
                self.v == old(self).v,
                self.stack == old(self).stack,
                self.display == old(self).display,
                self.keys == old(self).keys,
                self.i == old(self).i,
                self.pc == old(self).pc,
                self.delay == old(self).delay,
                self.sound == old(self).sound,
                forall|a: int|
                    0 <= a < 4096 ==> self.memory@[a] == if base <= a < base + r {
                        old(self).v@[a - base]
                    } else {
                        old(self).memory@[a]
                    },
            decreases x + 1 - r,
        {
            self.memory[base + r] = self.v[r];
            r = r + 1;
        }
        self.pc = self.pc + 2;
        assert(self@.memory =~= with_registers(
            old(self)@.memory,
            old(self)@.i as int,
            old(self)@.v,
            x,
        ));
        Ok(())
    }

    fn load_registers(&mut self, x: u8) -> (result: Result<(), Fault>)
        requires
            old(self)@.pc <= 4094,
            x < 16,
        ensures
            carried_out(registers_loaded(old(self)@, x), old(self)@, final(self)@, result),
    {
        if self.i as usize + x as usize >= 4096 {
            return Err(Fault::AddressOutOfBounds);
        }
        let base = self.i as usize;
        let mut r: usize = 0;
        while r <= x as usize
            invariant
                r <= x + 1,
                x < 16,
                base == old(self).i,
                base + x < 4096,
                self.memory == old(self).memory,
                self.stack == old(self).stack,
                self.display == old(self).display,
                self.keys == old(self).keys,
                self.i == old(self).i,
                self.pc == old(self).pc,
                self.delay == old(self).delay,
                self.sound == old(self).sound,
                forall|k: int|
                    0 <= k < 16 ==> self.v@[k] == if k < r {
                        old(self).memory@[base + k]
                    } else {
                        old(self).v@[k]
                    },
            decreases x + 1 - r,
        {
            self.v[r] = self.memory[base + r];
            r = r + 1;
        }
        self.pc = self.pc + 2;
        assert(self@.v =~= from_memory(
            old(self)@.v,
            old(self)@.memory,
            old(self)@.i as int,
            x,
        ));
        Ok(())
    }

    /// Carries out `instruction`, which was fetched at the program
    /// counter.
    fn execute(&mut self, instruction: Instruction, random: u8) -> (result: Result<(), Fault>)
        requires
            old(self)@.pc <= 4094,
            instruction.wf(),
        ensures
            carried_out(
                execute(old(self)@, instruction, random),
                old(self)@,
                final(self)@,
                result,
            ),
    {
        match instruction {
            Instruction::ClearScreen => {
                self.clear_screen();
                Ok(())
            },
            Instruction::Return => self.ret(),
            Instruction::Jump(nnn) => {
                self.jump(nnn);
                Ok(())
            },
            Instruction::Call(nnn) => self.call(nnn),
            Instruction::SkipIfByte(x, kk) => {
                let taken = self.v[x as usize] == kk;
                self.skip_if(taken);
                Ok(())
            },
            Instruction::SkipUnlessByte(x, kk) => {
                let taken = self.v[x as usize] != kk;
                self.skip_if(taken);
                Ok(())
            },
            Instruction::SkipIfSame(x, y) => {
                let taken = self.v[x as usize] == self.v[y as usize];
                self.skip_if(taken);
                Ok(())
            },
            Instruction::SkipUnlessSame(x, y) => {
                let taken = self.v[x as usize] != self.v[y as usize];
                self.skip_if(taken);
                Ok(())
            },
            Instruction::SetByte(x, kk) => {
                self.assign(x, kk);
                Ok(())
            },
            Instruction::AddByte(x, kk) => {
                let value = self.v[x as usize].wrapping_add(kk);
                self.assign(x, value);
                Ok(())
            },
            Instruction::Assign(x, y) => {
                let value = self.v[y as usize];
                self.assign(x, value);
                Ok(())
            },
            Instruction::Or(x, y) => {
                let value = self.v[x as usize] | self.v[y as usize];
                self.assign(x, value);
                Ok(())
            },
            Instruction::And(x, y) => {
                let value = self.v[x as usize] & self.v[y as usize];
                self.assign(x, value);
                Ok(())
            },
            Instruction::Xor(x, y) => {
                let value = self.v[x as usize] ^ self.v[y as usize];
                self.assign(x, value);
                Ok(())
            },
            Instruction::Add(x, y) => {
                let a = self.v[x as usize];
                let b = self.v[y as usize];
                self.assign_with_flag(x, a.wrapping_add(b), a as u16 + b as u16 > 255);
                Ok(())
            },
            Instruction::Sub(x, y) => {
                let a = self.v[x as usize];
                let b = self.v[y as usize];
                self.assign_with_flag(x, a.wrapping_sub(b), a >= b);
                Ok(())
            },
            Instruction::SubFrom(x, y) => {
                let a = self.v[x as usize];
                let b = self.v[y as usize];
                self.assign_with_flag(x, b.wrapping_sub(a), b >= a);
                Ok(())
            },
            Instruction::ShiftRight(x) => {
                let a = self.v[x as usize];
                assert(a >> 1u8 == a / 2 && ((a & 1u8 == 1u8) <==> a % 2 == 1)) by (bit_vector);
                self.assign_with_flag(x, a >> 1u8, a & 1u8 == 1u8);
                Ok(())
            },
            Instruction::ShiftLeft(x) => {
                let a = self.v[x as usize];
                assert(a << 1u8 == (a * 2) % 256 && ((a >> 7u8 == 1u8) <==> a >= 128))
                    by (bit_vector);
                self.assign_with_flag(x, a << 1u8, a >> 7u8 == 1u8);
                Ok(())
            },
            Instruction::SetIndex(nnn) => {
                self.set_index(nnn);
                Ok(())
            },
            Instruction::JumpOffset(nnn) => {
                let addr = nnn + self.v[0] as u16;
                self.jump(addr);
                Ok(())
            },
            Instruction::Random(x, kk) => {
                self.assign(x, random & kk);
                Ok(())
            },
            Instruction::Draw(x, y, n) => self.draw(x, y, n),
            Instruction::SkipIfKey(x) => self.key_skip(x, true),
            Instruction::SkipUnlessKey(x) => self.key_skip(x, false),
            Instruction::ReadDelay(x) => {
                let value = self.delay;
                self.assign(x, value);
                Ok(())
            },
            Instruction::WaitKey(x) => {
                self.wait_key(x);
                Ok(())
            },
            Instruction::SetDelay(x) => {
                let value = self.v[x as usize];
                self.set_delay(value);
                Ok(())
            },
            Instruction::SetSound(x) => {
                let value = self.v[x as usize];
                self.set_sound(value);
                Ok(())
            },
            Instruction::AddIndex(x) => {
                let value = self.i.wrapping_add(self.v[x as usize] as u16);
                self.set_index(value);
                Ok(())
            },
            Instruction::Glyph(x) => {
                let value = self.v[x as usize] as u16 * 5;
                self.set_index(value);
                Ok(())
            },
            Instruction::Decimal(x) => self.store_decimal(x),
            Instruction::Store(x) => self.store_registers(x),
            Instruction::Load(x) => self.load_registers(x),
        }
    }

    /// The instruction at the program counter.
    fn next_instruction(&self) -> (instruction: Result<Instruction, Fault>)
        ensures
            instruction == next_instruction(self@),
            instruction matches Ok(decoded) ==> decoded.wf() && self@.pc <= 4094,
    {
        match self.fetch() {
            None => Err(Fault::PcOutOfBounds),
            Some(word) => {
                proof {
                    lemma_decoded_wf(word);
                }
                match decode(word) {
                    None => Err(Fault::UnknownOpcode(word)),
                    Some(instruction) => Ok(instruction),
                }
            },
        }
    }

    /// Runs one instruction, with `random` as the byte that the
    /// random-number instruction would draw. On a fault the machine is
    /// left as it was.
    pub fn cycle_with(&mut self, random: u8) -> (result: Result<(), Error>)
        ensures
            cycle_outcome(old(self)@, random, final(self)@, result),
    {
        let outcome = match self.next_instruction() {
            Ok(instruction) => self.execute(instruction, random),
            Err(fault) => Err(fault),
        };
        match outcome {
            Ok(()) => Ok(()),
            Err(fault) => Err(Error::IllegalState(fault)),
        }
    }

    /// Runs one instruction. Where it is the random-number instruction, a
    /// byte is drawn from the generator, and the cycle does what
    /// `cycle_with` does with that byte; any other instruction does what
    /// `cycle_with` does whatever byte it is given.
    pub fn cycle(&mut self) -> (result: Result<(), Error>)
        ensures
            exists|random: u8| cycle_outcome(old(self)@, random, final(self)@, result),
            !draws_random(old(self)@) ==> forall|random: u8|
                cycle_outcome(old(self)@, random, final(self)@, result),
    {
        let (random, outcome) = match self.next_instruction() {
            Ok(instruction) => {
                let random = match instruction {
                    Instruction::Random(_, _) => random_byte(&mut self.rng),
                    _ => 0,
                };
                (random, self.execute(instruction, random))
            },
            Err(fault) => (0, Err(fault)),
        };
        let result = match outcome {
            Ok(()) => Ok(()),
            Err(fault) => Err(Error::IllegalState(fault)),
        };
        assert(cycle_outcome(old(self)@, random, self@, result));
        result
    }

    /// The program counter.
    pub fn pc(&self) -> (pc: u16)
        ensures
            pc == self@.pc,
    {
        self.pc
    }

    /// The address register.
    pub fn index(&self) -> (i: u16)
        ensures
            i == self@.i,
    {
        self.i
    }

    /// The sixteen general registers.
    pub fn registers(&self) -> (v: &[u8; 16])
        ensures
            v@ == self@.v,
    {
        &self.v
    }

    /// The 4096 bytes of memory.
    pub fn memory(&self) -> (memory: &[u8; 4096])
        ensures
            memory@ == self@.memory,
    {
        &self.memory
    }

    /// The display, row by row from the top left. This is what a renderer
    /// reads.
    pub fn display(&self) -> (display: &[bool; 2048])
        ensures
            display@ == self@.display,
    {
        &self.display
    }

    /// Whether the pixel in column `x`, row `y` is on. Coordinates wrap as
    /// they do when a sprite is drawn.
    pub fn pixel(&self, x: u8, y: u8) -> (on: bool)
        ensures
            on == self@.display[pixel_index(x as int, y as int)],
    {
        self.display[(x % 64) as usize + 64 * (y % 32) as usize]
    }

    /// Which keys are held down.
    pub fn keys(&self) -> (keys: &[bool; 16])
        ensures
            keys@ == self@.keys,
    {
        &self.keys
    }

    /// Replaces the whole key latch. Nothing else changes.
    pub fn set_keys(&mut self, keys: [bool; 16])
        ensures
            final(self)@ == (MachineState { keys: keys@, ..old(self)@ }),
    {
        self.keys = keys;
    }

    /// Marks `key` as held down or released and says whether there is
    /// such a key. A number above `0xF` names no key and changes nothing.
    pub fn set_key(&mut self, key: u8, pressed: bool) -> (known: bool)
        ensures
            known == (key < 16),
            known ==> final(self)@ == (MachineState {
                keys: old(self)@.keys.update(key as int, pressed),
                ..old(self)@
            }),
            !known ==> final(self)@ == old(self)@,
    {
        if key < 16 {
            self.keys[key as usize] = pressed;
            true
        } else {
            false
        }
    }

    /// The delay timer.
    pub fn delay_timer(&self) -> (delay: u8)
        ensures
            delay == self@.delay,
    {
        self.delay
    }

    /// The sound timer. A host sounds its buzzer while this is not zero.
    pub fn sound_timer(&self) -> (sound: u8)
        ensures
            sound == self@.sound,
    {
        self.sound
    }

    /// How many subroutine calls are waiting for their return.
    pub fn stack_depth(&self) -> (depth: u8)
        ensures
            depth == self@.stack.len(),
    {
        self.stack.len()
    }

    /// The return address of the call at `level`, counted from the
    /// outermost.
    pub fn return_address(&self, level: u8) -> (addr: Option<u16>)
        ensures
            addr == if level < self@.stack.len() {
                Some(self@.stack[level as int])
            } else {
                None
            },
    {
        self.stack.get(level)
    }
}

} // verus!
