//! The machine: its state, the instruction cycle and the hand-over of
//! frames, tones and waits to the host.

use crate::decode::{join, Instruction};
use crate::display::Display;
use crate::entropy::random_byte;
use crate::fault::Fault;
use crate::model::{State, FLAG, GLYPH_BYTES, MEMORY_SIZE, PROGRAM_START, REGISTERS, WAIT_UNIT_MS};
use crate::timer::{due, is_due, wind_down};
use vstd::prelude::*;

verus! {

/// How the host wants the machine to behave.
#[derive(Clone, Copy, Debug, PartialEq, Eq, Structural)]
pub struct Options {
    /// Hand out frames only when the screen is cleared, not at every tick.
    pub render_on_clear_only: bool,
    /// Make setting the delay timer block until the timer has run out.
    pub delay_instruction_blocks: bool,
}

/// What the host has to do after an instruction, before anything else.
#[derive(Clone, Copy, Debug, PartialEq, Eq)]
pub struct Executed {
    /// The frame that was on the display when the instruction cleared it,
    /// if it was not handed out before: the host presents it.
    pub flushed: Option<Display>,
    /// How long the host has to block, in milliseconds.
    pub wait_millis: u64,
}

impl Executed {
    /// Whether this is what the host has to do after `instruction` was
    /// executed in state `before`.
    pub open spec fn follows(self, before: State, instruction: Instruction) -> bool {
        &&& self.wait_millis == before.wait_millis(instruction)
        &&& match self.flushed {
            Some(frame) => before.flushes(instruction) && frame@ == before.display,
            None => !before.flushes(instruction),
        }
    }
}

/// What the host has to do after the timers were looked after.
#[derive(Clone, Copy, Debug, PartialEq, Eq)]
pub struct Ticked {
    /// Whether a tick was due, so that the timers counted down.
    pub elapsed: bool,
    /// Whether the tone sounds: a tick was due while the sound timer ran.
    pub tone: bool,
    /// The frame to present, if one is due.
    pub frame: Option<Display>,
}

impl Ticked {
    /// Whether this is what the host has to do after the timers of a machine
    /// in state `before` were looked after at time `now`.
    pub open spec fn follows(self, before: State, now: u64) -> bool {
        &&& self.elapsed == due(before.last_tick, now)
        &&& self.tone == before.sounds(now)
        &&& match self.frame {
            Some(frame) => before.presents(now) && frame@ == before.display,
            None => !before.presents(now),
        }
    }
}

/// What the host has to do after one whole step: first what the instruction
/// asks for, then what the timers ask for.
#[derive(Clone, Copy, Debug, PartialEq, Eq)]
pub struct StepOutcome {
    /// What the instruction asks for.
    pub executed: Executed,
    /// What the timers ask for.
    pub ticked: Ticked,
}

/// A CHIP-8 machine. Its view is the `State` of the model, and every
/// machine's view has the shape that `State::wf` asks for.
#[derive(Debug)]
pub struct Chip8 {
    /// Memory: the font from address 0, the program from `PROGRAM_START`.
    memory: [u8; MEMORY_SIZE],
    /// The registers `V0` to `VF`.
    v: [u8; REGISTERS],
    /// The address register `I`.
    i: u32,
    /// The program counter.
    pc: u32,
    /// The return addresses, the most recent one last.
    stack: Vec<u32>,
    /// The delay timer, which counts down at every tick.
    delay_timer: u8,
    /// The sound timer, which counts down at every tick and sounds
    /// meanwhile.
    sound_timer: u8,
    /// The pixels.
    display: Display,
    /// Whether the display holds a frame that was not handed out yet.
    display_changed: bool,
    /// The time of the last tick, in milliseconds.
    last_tick: u64,
    /// How the host wants the machine to behave.
    options: Options,
}

impl View for Chip8 {
    type V = State;

    closed spec fn view(&self) -> State {
        State {
            memory: self.memory@,
            v: self.v@,
            i: self.i,
            pc: self.pc,
            stack: self.stack@,
            delay_timer: self.delay_timer,
            sound_timer: self.sound_timer,
            display: self.display@,
            display_changed: self.display_changed,
            last_tick: self.last_tick,
            render_on_clear_only: self.options.render_on_clear_only,
            delay_instruction_blocks: self.options.delay_instruction_blocks,
        }
    }
}

impl Chip8 {
    /// The state of a machine always has the shape that the model asks for.
    pub proof fn lemma_view_wf(&self)
        ensures
            self@.wf(),
    {
        self.display.lemma_view_wf();
    }

    /// A machine at time `now`, in milliseconds: the font in memory, no
    /// program, and the program counter at `PROGRAM_START`.
    pub fn new(now: u64) -> (machine: Chip8)
        ensures
            machine@ == State::initial(now),
    {
        let font: [u8; 80] = [
            0xF0, 0x90, 0x90, 0x90, 0xF0,
            0x20, 0x60, 0x20, 0x20, 0x70,
            0xF0, 0x10, 0xF0, 0x80, 0xF0,
            0xF0, 0x10, 0xF0, 0x10, 0xF0,
            0x90, 0x90, 0xF0, 0x10, 0x10,
            0xF0, 0x80, 0xF0, 0x10, 0xF0,
            0xF0, 0x80, 0xF0, 0x90, 0xF0,
            0xF0, 0x10, 0x20, 0x40, 0x40,
            0xF0, 0x90, 0xF0, 0x90, 0xF0,
            0xF0, 0x90, 0xF0, 0x10, 0xF0,
            0xF0, 0x90, 0xF0, 0x90, 0x90,
            0xE0, 0x90, 0xE0, 0x90, 0xE0,
            0xF0, 0x80, 0x80, 0x80, 0xF0,
            0xE0, 0x90, 0x90, 0x90, 0xE0,
            0xF0, 0x80, 0xF0, 0x80, 0xF0,
            0xF0, 0x80, 0xF0, 0x80, 0x80,
        ];
        let mut memory: [u8; MEMORY_SIZE] = [0u8; MEMORY_SIZE];
        let mut a: usize = 0;
        while a < 80
            invariant
                a <= 80,
                font@ == crate::model::font(),
                forall|k: int| 0 <= k < a ==> memory@[k] == font@[k],
                forall|k: int| a <= k < MEMORY_SIZE ==> memory@[k] == 0u8,
            decreases 80 - a,
        {
            memory[a] = font[a];
            a += 1;
        }
        let machine = Chip8 {
            memory,
            v: [0u8; REGISTERS],
            i: 0,
            pc: PROGRAM_START as u32,
            stack: Vec::new(),
            delay_timer: 0,
            sound_timer: 0,
            display: Display::new(),
            display_changed: false,
            last_tick: now,
            options: Options { render_on_clear_only: false, delay_instruction_blocks: false },
        };
        assert(machine@.memory =~= State::initial(now).memory);
        assert(machine@.v =~= State::initial(now).v);
        machine
    }

    /// Copies `rom` into memory from `PROGRAM_START` on. The rest of memory,
    /// the font with it, stays as it was.
    pub fn load_rom(&mut self, rom: Vec<u8>)
        requires
            PROGRAM_START + rom@.len() <= MEMORY_SIZE,
        ensures
            final(self)@ == old(self)@.loaded(rom@),
    {
        let mut k: usize = 0;
        while k < rom.len()
            invariant
                k <= rom@.len(),
                PROGRAM_START + rom@.len() <= MEMORY_SIZE,
                self@ == (State { memory: self@.memory, ..old(self)@ }),
                forall|a: int|
                    0 <= a < MEMORY_SIZE ==> self@.memory[a] == (if PROGRAM_START <= a
                        < PROGRAM_START + k {
                        rom@[a - PROGRAM_START]
                    } else {
                        old(self)@.memory[a]
                    }),
            decreases rom@.len() - k,
        {
            self.memory[PROGRAM_START + k] = rom[k];
            k += 1;
        }
        assert(self@.memory =~= old(self)@.loaded(rom@).memory);
    }

    /// Whether `instruction` is a skip whose condition holds.
    fn skips(&self, instruction: Instruction) -> (yes: bool)
        requires
            instruction.wf(),
        ensures
            yes == self@.skips(instruction),
    {
        match instruction {
            Instruction::SkipIfEqual { x, nn } => self.v[x as usize] == nn,
            Instruction::SkipIfNotEqual { x, nn } => self.v[x as usize] != nn,
            Instruction::SkipIfRegistersEqual { x, y } => self.v[x as usize] == self.v[y as usize],
            Instruction::SkipIfRegistersNotEqual { x, y } => self.v[x as usize]
                != self.v[y as usize],
            _ => false,
        }
    }

    /// Whether the memory that `instruction` reads or writes lies within
    /// memory.
    fn in_bounds(&self, instruction: Instruction) -> (yes: bool)
        requires
            instruction.wf(),
        ensures
            yes == self@.in_bounds(instruction),
    {
        let start: u64 = self.i as u64;
        let size: u64 = MEMORY_SIZE as u64;
        match instruction {
            Instruction::Draw { n, .. } => start + n as u64 <= size,
            Instruction::StoreBcd { .. } => start + 3 <= size,
            Instruction::DumpRegisters { x } => start + (x as u64) < size,
            Instruction::LoadRegisters { x } => start + (x as u64) < size,
            _ => true,
        }
    }

    /// The fault that `instruction` would raise in the present state.
    pub fn check(&self, instruction: Instruction) -> (fault: Option<Fault>)
        requires
            instruction.wf(),
        ensures
            fault == self@.fault(instruction),
    {
        match instruction {
            Instruction::Null => Some(Fault::NullInstruction),
            Instruction::Return => if self.stack.len() == 0 {
                Some(Fault::StackUnderflow)
            } else {
                None
            },
            Instruction::Jump { addr } => if addr as u32 == self.pc {
                Some(Fault::SelfJump)
            } else {
                None
            },
            Instruction::Call { .. } | Instruction::JumpOffset { .. } => None,
            _ => {
                let step: u64 = if self.skips(instruction) {
                    4
                } else {
                    2
                };
                if !self.in_bounds(instruction) || self.pc as u64 + step > MEMORY_SIZE as u64 {
                    Some(Fault::MemoryOverflow)
                } else {
                    None
                }
            },
        }
    }

    /// The program counter after `instruction`.
    fn target(&self, instruction: Instruction) -> (pc: u32)
        requires
            instruction.wf(),
            self@.fault(instruction) is None,
        ensures
            pc == self@.target(instruction),
    {
        match instruction {
            Instruction::Return => self.stack[self.stack.len() - 1],
            Instruction::Jump { addr } => addr as u32,
            Instruction::Call { addr } => addr as u32,
            Instruction::JumpOffset { addr } => self.v[0] as u32 + addr as u32,
            _ => if self.skips(instruction) {
                self.pc + 4
            } else {
                self.pc + 2
            },
        }
    }

    /// Sets register `x` to `value`.
    fn set_register(&mut self, x: u8, value: u8)
        requires
            x < REGISTERS,
        ensures
            final(self)@ == old(self)@.with_register(x, value),
    {
        self.v[x as usize] = value;
    }

    /// Sets `VF` to 1 if `flag` holds and to 0 if not.
    fn set_flag(&mut self, flag: bool)
        ensures
            final(self)@ == old(self)@.with_flag(flag),
    {
        self.v[FLAG] = if flag {
            1
        } else {
            0
        };
    }

    /// Draws the sprite of `n` rows at `I` at the place that registers `x`
    /// and `y` give, and records in `VF` whether a pixel went off.
    fn draw(&mut self, x: u8, y: u8, n: u8)
        requires
            x < REGISTERS,
            y < REGISTERS,
            n < 16,
            old(self)@.in_bounds(Instruction::Draw { x, y, n }),
        ensures
            final(self)@ == old(self)@.effect(Instruction::Draw { x, y, n }, 0),
    {
        let left: u8 = self.v[x as usize];
        let top: u8 = self.v[y as usize];
        let start: usize = self.i as usize;
        let sprite = vstd::slice::slice_subrange(self.memory.as_slice(), start, start + n as usize);
        let collision = self.display.draw(left, top, sprite);
        self.set_flag(collision);
        self.display_changed = true;
    }

    /// Writes the three decimal digits of register `x` to memory at `I`,
    /// the hundreds first.
    fn store_bcd(&mut self, x: u8)
        requires
            x < REGISTERS,
            old(self)@.in_bounds(Instruction::StoreBcd { x }),
        ensures
            final(self)@ == old(self)@.effect(Instruction::StoreBcd { x }, 0),
    {
        let value: u8 = self.v[x as usize];
        let start: usize = self.i as usize;
        self.memory[start] = value / 100;
        self.memory[start + 1] = value / 10 % 10;
        self.memory[start + 2] = value % 10;
    }

    /// Copies registers `V0` to `V[x]` to memory from `I` on.
    fn dump_registers(&mut self, x: u8)
        requires
            x < REGISTERS,
            old(self)@.in_bounds(Instruction::DumpRegisters { x }),
        ensures
            final(self)@ == old(self)@.effect(Instruction::DumpRegisters { x }, 0),
    {
        let start: usize = self.i as usize;
        let mut k: usize = 0;
        while k <= x as usize
            invariant
                k <= x + 1,
                x < REGISTERS,
                start == self@.i,
                start + x < MEMORY_SIZE,
                self@ == (State { memory: self@.memory, ..old(self)@ }),
                forall|a: int|
                    0 <= a < MEMORY_SIZE ==> self@.memory[a] == (if start <= a < start + k {
                        old(self)@.v[a - start]
                    } else {
                        old(self)@.memory[a]
                    }),
            decreases x + 1 - k,
        {
            self.memory[start + k] = self.v[k];
            k += 1;
        }
        assert(self@.memory =~= old(self)@.effect(Instruction::DumpRegisters { x }, 0).memory);
    }

    /// Copies memory from `I` on to registers `V0` to `V[x]`.
    fn load_registers(&mut self, x: u8)
        requires
            x < REGISTERS,
            old(self)@.in_bounds(Instruction::LoadRegisters { x }),
        ensures
            final(self)@ == old(self)@.effect(Instruction::LoadRegisters { x }, 0),
    {
        let start: usize = self.i as usize;
        let mut k: usize = 0;
        while k <= x as usize
            invariant
                k <= x + 1,
                x < REGISTERS,
                start == self@.i,
                start + x < MEMORY_SIZE,
                self@ == (State { v: self@.v, ..old(self)@ }),
                forall|r: int|
                    0 <= r < REGISTERS ==> self@.v[r] == (if r < k {
                        old(self)@.memory[start + r]
                    } else {
                        old(self)@.v[r]
                    }),
            decreases x + 1 - k,
        {
            self.v[k] = self.memory[start + k];
            k += 1;
        }
        assert(self@.v =~= old(self)@.effect(Instruction::LoadRegisters { x }, 0).v);
    }

    /// Hands the frame on the display to the caller, to be presented, and
    /// marks it as handed out.
    pub fn render(&mut self) -> (frame: Display)
        ensures
            frame@ == old(self)@.display,
            final(self)@ == (State { display_changed: false, ..old(self)@ }),
    {
        self.display_changed = false;
        self.display
    }

    /// Does to everything but the program counter what `instruction` does.
    fn perform(&mut self, instruction: Instruction, random: u8) -> (done: Executed)
        requires
            instruction.wf(),
            old(self)@.fault(instruction) is None,
        ensures
            final(self)@ == old(self)@.effect(instruction, random),
            done.follows(old(self)@, instruction),
    {
        let mut done = Executed { flushed: None, wait_millis: 0 };
        match instruction {
            Instruction::ClearScreen => {
                if self.display_changed {
                    done.flushed = Some(self.render());
                }
                self.display.clear();
            },
            Instruction::Return => {
                self.stack.pop();
            },
            Instruction::Call { .. } => {
                self.stack.push(self.pc);
            },
            Instruction::Load { x, nn } => {
                self.set_register(x, nn);
            },
            Instruction::Add { x, nn } => {
                self.set_register(x, self.v[x as usize].wrapping_add(nn));
            },
            Instruction::Copy { x, y } => {
                self.set_register(x, self.v[y as usize]);
            },
            Instruction::Or { x, y } => {
                self.set_register(x, self.v[x as usize] | self.v[y as usize]);
            },
            Instruction::And { x, y } => {
                self.set_register(x, self.v[x as usize] & self.v[y as usize]);
            },
            Instruction::Xor { x, y } => {
                self.set_register(x, self.v[x as usize] ^ self.v[y as usize]);
            },
            Instruction::AddRegister { x, y } => {
                let (augend, addend) = (self.v[x as usize], self.v[y as usize]);
                self.set_register(x, augend.wrapping_add(addend));
                self.set_flag(augend as u16 + addend as u16 > 255);
            },
            Instruction::Subtract { x, y } => {
                let (minuend, subtrahend) = (self.v[x as usize], self.v[y as usize]);
                self.set_register(x, minuend.wrapping_sub(subtrahend));
                self.set_flag(minuend > subtrahend);
            },
            Instruction::ShiftRight { x } => {
                let value: u8 = self.v[x as usize];
                assert(value & 1 == value % 2) by (bit_vector);
                self.set_flag(value & 1 == 1);
                let value: u8 = self.v[x as usize];
                assert(value >> 1 == value / 2) by (bit_vector);
                self.set_register(x, value >> 1);
            },
            Instruction::ReverseSubtract { x, y } => {
                let (minuend, subtrahend) = (self.v[y as usize], self.v[x as usize]);
                self.set_register(x, minuend.wrapping_sub(subtrahend));
                self.set_flag(minuend > subtrahend);
            },
            Instruction::ShiftLeft { x } => {
                let value: u8 = self.v[x as usize];
                assert((value & 0x80 != 0) == (value >= 128)) by (bit_vector);
                self.set_flag(value & 0x80 != 0);
                let value: u8 = self.v[x as usize];
                assert(value << 1 == value * 2 % 256) by (bit_vector);
                self.set_register(x, value << 1);
            },
            Instruction::LoadIndex { addr } => {
                self.i = addr as u32;
            },
            Instruction::Random { x, nn } => {
                self.set_register(x, random & nn);
            },
            Instruction::Draw { x, y, n } => {
                self.draw(x, y, n);
            },
            Instruction::ReadDelay { x } => {
                self.set_register(x, self.delay_timer);
            },
            Instruction::ReadKey { x } => {
                self.set_register(x, 0);
            },
            Instruction::SetDelay { x } => {
                if self.options.delay_instruction_blocks {
                    done.wait_millis = WAIT_UNIT_MS * self.v[x as usize] as u64;
                    self.delay_timer = 0;
                } else {
                    self.delay_timer = self.v[x as usize];
                }
            },
            Instruction::SetSound { x } => {
                self.sound_timer = self.v[x as usize];
            },
            Instruction::AddIndex { x } => {
                self.i = self.i.wrapping_add(self.v[x as usize] as u32);
            },
            Instruction::FontAddress { x } => {
                let digit: u32 = self.v[x as usize] as u32;
                assert(GLYPH_BYTES * digit <= 5 * 255);
                self.i = GLYPH_BYTES as u32 * digit;
            },
            Instruction::StoreBcd { x } => {
                self.store_bcd(x);
            },
            Instruction::DumpRegisters { x } => {
                self.dump_registers(x);
            },
            Instruction::LoadRegisters { x } => {
                self.load_registers(x);
            },
            _ => {},
        }
        done
    }

    /// Executes `instruction`, with `random` as the byte that it may draw.
    /// Either it raises its fault and nothing changes, or the machine moves
    /// to the state that the model gives and the host is told what to do.
    pub fn apply(&mut self, instruction: Instruction, random: u8) -> (result: Result<
        Executed,
        Fault,
    >)
        requires
            instruction.wf(),
        ensures
            match result {
                Ok(done) => {
                    &&& old(self)@.fault(instruction) is None
                    &&& final(self)@ == old(self)@.after(instruction, random)
                    &&& done.follows(old(self)@, instruction)
                },
                Err(fault) => {
                    &&& old(self)@.fault(instruction) == Some(fault)
                    &&& final(self)@ == old(self)@
                },
            },
    {
        match self.check(instruction) {
            Some(fault) => Err(fault),
            None => {
                let target = self.target(instruction);
                let done = self.perform(instruction, random);
                self.pc = target;
                Ok(done)
            },
        }
    }

    /// Reads the instruction word at the program counter, if both of its
    /// bytes lie in memory.
    pub fn fetch(&self) -> (word: Option<u16>)
        ensures
            match word {
                Some(word) => self@.fetchable() && word == self@.word(),
                None => !self@.fetchable(),
            },
    {
        let at: usize = self.pc as usize;
        if at < MEMORY_SIZE - 1 {
            Some(join(self.memory[at], self.memory[at + 1]))
        } else {
            None
        }
    }

    /// Fetches, decodes and executes the instruction at the program
    /// counter, with `random` as the byte that it may draw. Either the step
    /// raises its fault and nothing changes, or the machine moves to the
    /// state that the model gives and the host is told what to do.
    pub fn execute(&mut self, random: u8) -> (result: Result<Executed, Fault>)
        ensures
            match result {
                Ok(done) => {
                    &&& old(self)@.step_fault() is None
                    &&& final(self)@ == old(self)@.stepped(random)
                    &&& done.follows(old(self)@, old(self)@.next())
                },
                Err(fault) => {
                    &&& old(self)@.step_fault() == Some(fault)
                    &&& final(self)@ == old(self)@
                },
            },
    {
        match self.fetch() {
            Some(word) => self.apply(Instruction::decode(word), random),
            None => Err(Fault::MemoryOverflow),
        }
    }

    /// Executes the instruction at the program counter, drawing a random
    /// byte if the instruction asks for one. The outcome is that of
    /// `execute` for some random byte; which byte matters only to the
    /// instruction that draws one.
    pub fn execute_next(&mut self) -> (result: Result<Executed, Fault>)
        ensures
            match result {
                Ok(done) => {
                    &&& old(self)@.step_fault() is None
                    &&& exists|random: u8| final(self)@ == old(self)@.stepped(random)
                    &&& !(old(self)@.next() is Random) ==> final(self)@ == old(self)@.stepped(0)
                    &&& done.follows(old(self)@, old(self)@.next())
                },
                Err(fault) => {
                    &&& old(self)@.step_fault() == Some(fault)
                    &&& final(self)@ == old(self)@
                },
            },
    {
        match self.fetch() {
            Some(word) => {
                let instruction = Instruction::decode(word);
                let random: u8 = match instruction {
                    Instruction::Random { .. } => random_byte(),
                    _ => 0,
                };
                let result = self.apply(instruction, random);
                assert(result is Ok ==> self@ == old(self)@.stepped(random));
                result
            },
            None => Err(Fault::MemoryOverflow),
        }
    }

    /// Looks after the timers at time `now`, in milliseconds. If a full
    /// tick interval has gone by since the last tick, both timers count
    /// down by one, the tone sounds if the sound timer was running, and a
    /// pending frame is handed out unless frames are kept for the clearing
    /// of the screen. Otherwise nothing happens.
    pub fn tick(&mut self, now: u64) -> (ticked: Ticked)
        ensures
            final(self)@ == old(self)@.ticked(now),
            ticked.follows(old(self)@, now),
    {
        let mut ticked = Ticked { elapsed: false, tone: false, frame: None };
        if is_due(self.last_tick, now) {
            ticked.elapsed = true;
            ticked.tone = self.sound_timer > 0;
            self.sound_timer = wind_down(self.sound_timer);
            self.delay_timer = wind_down(self.delay_timer);
            self.last_tick = now;
            if self.display_changed && !self.options.render_on_clear_only {
                ticked.frame = Some(self.render());
            }
        }
        ticked
    }

    /// One whole step at time `now`, in milliseconds: the instruction at the
    /// program counter, then the timers. If the instruction raises a fault,
    /// nothing changes, the timers included. A host that blocks for the
    /// wait that an instruction asks for calls `execute_next`, waits, and
    /// then calls `tick` with the time after the wait.
    pub fn run_next(&mut self, now: u64) -> (result: Result<StepOutcome, Fault>)
        ensures
            match result {
                Ok(outcome) => {
                    &&& old(self)@.step_fault() is None
                    &&& exists|random: u8|
                        {
                            &&& final(self)@ == old(self)@.ran(random, now)
                            &&& outcome.ticked.follows(old(self)@.stepped(random), now)
                        }
                    &&& !(old(self)@.next() is Random) ==> final(self)@ == old(self)@.ran(0, now)
                    &&& outcome.executed.follows(old(self)@, old(self)@.next())
                },
                Err(fault) => {
                    &&& old(self)@.step_fault() == Some(fault)
                    &&& final(self)@ == old(self)@
                },
            },
    {
        match self.execute_next() {
            Ok(executed) => {
                let ghost stepped = self@;
                let ticked = self.tick(now);
                proof {
                    let random = choose|random: u8| stepped == old(self)@.stepped(random);
                    assert(self@ == old(self)@.ran(random, now));
                }
                Ok(StepOutcome { executed, ticked })
            },
            Err(fault) => Err(fault),
        }
    }

    /// Sets how the machine behaves towards the host.
    pub fn configure(&mut self, options: Options)
        ensures
            final(self)@ == (State {
                render_on_clear_only: options.render_on_clear_only,
                delay_instruction_blocks: options.delay_instruction_blocks,
                ..old(self)@
            }),
    {
        self.options = options;
    }

    /// How the machine behaves towards the host.
    pub fn options(&self) -> (options: Options)
        ensures
            options.render_on_clear_only == self@.render_on_clear_only,
            options.delay_instruction_blocks == self@.delay_instruction_blocks,
    {
        self.options
    }

    /// The program counter.
    pub fn pc(&self) -> (pc: u32)
        ensures
            pc == self@.pc,
    {
        self.pc
    }

    /// The address register `I`.
    pub fn index(&self) -> (i: u32)
        ensures
            i == self@.i,
    {
        self.i
    }

    /// The registers `V0` to `VF`.
    pub fn registers(&self) -> (v: &[u8; REGISTERS])
        ensures
            v@ == self@.v,
    {
        &self.v
    }

    /// The whole of memory.
    pub fn memory(&self) -> (memory: &[u8; MEMORY_SIZE])
        ensures
            memory@ == self@.memory,
    {
        &self.memory
    }

    /// The return addresses on the call stack, the most recent one last.
    pub fn stack(&self) -> (stack: &Vec<u32>)
        ensures
            stack@ == self@.stack,
    {
        &self.stack
    }

    /// The delay timer.
    pub fn delay_timer(&self) -> (timer: u8)
        ensures
            timer == self@.delay_timer,
    {
        self.delay_timer
    }

    /// The sound timer.
    pub fn sound_timer(&self) -> (timer: u8)
        ensures
            timer == self@.sound_timer,
    {
        self.sound_timer
    }

    /// The display.
    pub fn display(&self) -> (display: &Display)
        ensures
            display@ == self@.display,
    {
        &self.display
    }

    /// Whether the display holds a frame that was not handed out yet.
    pub fn display_changed(&self) -> (pending: bool)
        ensures
            pending == self@.display_changed,
    {
        self.display_changed
    }

    /// The time of the last tick, in milliseconds.
    pub fn last_tick(&self) -> (at: u64)
        ensures
            at == self@.last_tick,
    {
        self.last_tick
    }
}

} // verus!
