//! The mathematical model of the machine: its state as plain values and
//! sequences, and what each instruction and each timer tick does to it.
//! The contracts of the executable machine are stated over this model.

use crate::decode::{instruction_of, word_of, Instruction};
use crate::display::{blank, collides, drawn, grid_wf, HEIGHT, WIDTH};
use crate::fault::Fault;
use crate::timer::{due, wound_down};
use vstd::prelude::*;

verus! {

/// Number of bytes of memory.
pub const MEMORY_SIZE: usize = 4096;

/// Address at which a program is loaded and at which execution starts.
pub const PROGRAM_START: usize = 0x200;

/// Number of general-purpose registers.
pub const REGISTERS: usize = 16;

/// Index of `VF`, the register that instructions use for their flags.
pub const FLAG: usize = 0xF;

/// Number of bytes of one glyph of the font.
pub const GLYPH_BYTES: u8 = 5;

/// Milliseconds that a blocking delay lasts for each unit of the delay timer.
pub const WAIT_UNIT_MS: u64 = 16;

/// The font: sixteen glyphs of five rows each, for the digits `0` to `F`,
/// which occupy memory from address 0.
pub open spec fn font() -> Seq<u8> {
    seq![
        0xF0, 0x90, 0x90, 0x90, 0xF0,
        0x20, 0x60, 0x20, 0x20, 0x70,
        0xF0, 0x10, 0xF0, 0x80, 0xF0,
        0xF0, 0x10, 0xF0, 0x10, 0xF0,
        0x90, 0x90, 0xF0, 0x10, 0x10,
        0xF0, 0x80, 0xF0, 0x10, 0xF0,
        0xF0, 0x80, 0xF0, 0x90, 0xF0,
        0xF0, 0x10, 0x20, 0x40, 0x40,
        0xF0, 0x90, 0xF0, 0x90, 0xF0,
        0xF0, 0x90, 0xF0, 0x10, 0xF0,
        0xF0, 0x90, 0xF0, 0x90, 0x90,
        0xE0, 0x90, 0xE0, 0x90, 0xE0,
        0xF0, 0x80, 0x80, 0x80, 0xF0,
        0xE0, 0x90, 0x90, 0x90, 0xE0,
        0xF0, 0x80, 0xF0, 0x80, 0xF0,
        0xF0, 0x80, 0xF0, 0x80, 0x80,
    ]
}

/// The state of a machine.
pub struct State {
    /// The bytes of memory, by address.
    pub memory: Seq<u8>,
    /// The registers `V0` to `VF`.
    pub v: Seq<u8>,
    /// The address register `I`.
    pub i: u32,
    /// The program counter: the address of the next instruction.
    pub pc: u32,
    /// The return addresses, the most recent one last.
    pub stack: Seq<u32>,
    /// The delay timer.
    pub delay_timer: u8,
    /// The sound timer.
    pub sound_timer: u8,
    /// The pixels, addressed `[x][y]`.
    pub display: Seq<Seq<bool>>,
    /// Whether the display holds a frame that was not handed out yet.
    pub display_changed: bool,
    /// The time of the last tick, in milliseconds.
    pub last_tick: u64,
    /// Whether frames are handed out only when the screen is cleared.
    pub render_on_clear_only: bool,
    /// Whether setting the delay timer blocks until it has run out.
    pub delay_instruction_blocks: bool,
}

impl State {
    /// Whether the state has the shape of a machine's: memory, registers and
    /// display of the fixed sizes.
    pub open spec fn wf(self) -> bool {
        &&& self.memory.len() == MEMORY_SIZE
        &&& self.v.len() == REGISTERS
        &&& grid_wf(self.display)
    }

    /// The state of a machine that was just made at time `now`: the font at
    /// the bottom of memory and everything else zero, empty or off, with
    /// the program counter at the start of the program area.
    pub open spec fn initial(now: u64) -> State {
        State {
            memory: Seq::new(
                MEMORY_SIZE as nat,
                |a: int|
                    if a < font().len() {
                        font()[a]
                    } else {
                        0u8
                    },
            ),
            v: Seq::new(REGISTERS as nat, |k: int| 0u8),
            i: 0,
            pc: PROGRAM_START as u32,
            stack: Seq::empty(),
            delay_timer: 0,
            sound_timer: 0,
            display: blank(),
            display_changed: false,
            last_tick: now,
            render_on_clear_only: false,
            delay_instruction_blocks: false,
        }
    }

    /// The state with `program` copied into memory from `PROGRAM_START` on.
    pub open spec fn loaded(self, program: Seq<u8>) -> State {
        State {
            memory: Seq::new(
                self.memory.len(),
                |a: int|
                    if PROGRAM_START <= a < PROGRAM_START + program.len() {
                        program[a - PROGRAM_START]
                    } else {
                        self.memory[a]
                    },
            ),
            ..self
        }
    }

    /// Whether both bytes of the instruction at the program counter lie in
    /// memory.
    pub open spec fn fetchable(self) -> bool {
        self.pc + 1 < self.memory.len()
    }

    /// The instruction word at the program counter, high byte first.
    pub open spec fn word(self) -> u16 {
        word_of(self.memory[self.pc as int], self.memory[self.pc + 1])
    }

    /// The instruction at the program counter.
    pub open spec fn next(self) -> Instruction {
        instruction_of(self.word())
    }

    /// The state with register `x` set to `value`.
    pub open spec fn with_register(self, x: u8, value: u8) -> State {
        State { v: self.v.update(x as int, value), ..self }
    }

    /// The state with `VF` set to 1 if `flag` holds and to 0 if not.
    pub open spec fn with_flag(self, flag: bool) -> State {
        State {
            v: self.v.update(
                FLAG as int,
                if flag {
                    1u8
                } else {
                    0u8
                },
            ),
            ..self
        }
    }

    /// The sprite of `n` rows at `I`.
    pub open spec fn sprite(self, n: u8) -> Seq<u8> {
        self.memory.subrange(self.i as int, self.i + n)
    }

    /// Whether `instruction` is a skip whose condition holds.
    pub open spec fn skips(self, instruction: Instruction) -> bool {
        match instruction {
            Instruction::SkipIfEqual { x, nn } => self.v[x as int] == nn,
            Instruction::SkipIfNotEqual { x, nn } => self.v[x as int] != nn,
            Instruction::SkipIfRegistersEqual { x, y } => self.v[x as int] == self.v[y as int],
            Instruction::SkipIfRegistersNotEqual { x, y } => self.v[x as int] != self.v[y as int],
            _ => false,
        }
    }

    /// Whether `instruction` sets the program counter itself, so that the
    /// counter does not move on to the following instruction.
    pub open spec fn transfers(self, instruction: Instruction) -> bool {
        match instruction {
            Instruction::Return
            | Instruction::Jump { .. }
            | Instruction::Call { .. }
            | Instruction::JumpOffset { .. } => true,
            _ => false,
        }
    }

    /// The program counter after `instruction`: where a transfer leads, and
    /// for every other instruction two bytes on, or four when it skips.
    pub open spec fn target(self, instruction: Instruction) -> int {
        match instruction {
            Instruction::Return => self.stack.last() as int,
            Instruction::Jump { addr } => addr as int,
            Instruction::Call { addr } => addr as int,
            Instruction::JumpOffset { addr } => self.v[0] + addr,
            _ => if self.skips(instruction) {
                self.pc + 4
            } else {
                self.pc + 2
            },
        }
    }

    /// Whether the memory that `instruction` reads or writes through `I` lies
    /// within memory.
    pub open spec fn in_bounds(self, instruction: Instruction) -> bool {
        match instruction {
            Instruction::Draw { n, .. } => self.i + n <= self.memory.len(),
            Instruction::StoreBcd { .. } => self.i + 3 <= self.memory.len(),
            Instruction::DumpRegisters { x } => self.i + x < self.memory.len(),
            Instruction::LoadRegisters { x } => self.i + x < self.memory.len(),
            _ => true,
        }
    }

    /// The fault that `instruction` raises in this state, if it raises one.
    pub open spec fn fault(self, instruction: Instruction) -> Option<Fault> {
        match instruction {
            Instruction::Null => Some(Fault::NullInstruction),
            Instruction::Return => if self.stack.len() == 0 {
                Some(Fault::StackUnderflow)
            } else {
                None
            },
            Instruction::Jump { addr } => if addr == self.pc {
                Some(Fault::SelfJump)
            } else {
                None
            },
            Instruction::Call { .. } | Instruction::JumpOffset { .. } => None,
            _ => if !self.in_bounds(instruction) || self.target(instruction)
                > self.memory.len() {
                Some(Fault::MemoryOverflow)
            } else {
                None
            },
        }
    }

    /// What `instruction` does to everything but the program counter, given
    /// the random byte that it may draw.
    pub open spec fn effect(self, instruction: Instruction, random: u8) -> State {
        match instruction {
            Instruction::ClearScreen => State {
                display: blank(),
                display_changed: false,
                ..self
            },
            Instruction::Return => State { stack: self.stack.drop_last(), ..self },
            Instruction::Call { .. } => State { stack: self.stack.push(self.pc), ..self },
            Instruction::Load { x, nn } => self.with_register(x, nn),
            Instruction::Add { x, nn } => self.with_register(
                x,
                ((self.v[x as int] + nn) % 256) as u8,
            ),
            Instruction::Copy { x, y } => self.with_register(x, self.v[y as int]),
            Instruction::Or { x, y } => self.with_register(x, self.v[x as int] | self.v[y as int]),
            Instruction::And { x, y } => self.with_register(
                x,
                self.v[x as int] & self.v[y as int],
            ),
            Instruction::Xor { x, y } => self.with_register(
                x,
                self.v[x as int] ^ self.v[y as int],
            ),
            Instruction::AddRegister { x, y } => {
                let sum = self.v[x as int] + self.v[y as int];
                self.with_register(x, (sum % 256) as u8).with_flag(sum > 255)
            },
            Instruction::Subtract { x, y } => {
                let (minuend, subtrahend) = (self.v[x as int], self.v[y as int]);
                self.with_register(x, ((minuend - subtrahend) % 256) as u8).with_flag(
                    minuend > subtrahend,
                )
            },
            Instruction::ShiftRight { x } => {
                let flagged = self.with_flag(self.v[x as int] % 2 == 1);
                flagged.with_register(x, flagged.v[x as int] / 2)
            },
            Instruction::ReverseSubtract { x, y } => {
                let (minuend, subtrahend) = (self.v[y as int], self.v[x as int]);
                self.with_register(x, ((minuend - subtrahend) % 256) as u8).with_flag(
                    minuend > subtrahend,
                )
            },
            Instruction::ShiftLeft { x } => {
                let flagged = self.with_flag(self.v[x as int] >= 128);
                flagged.with_register(x, (flagged.v[x as int] * 2 % 256) as u8)
            },
            Instruction::LoadIndex { addr } => State { i: addr as u32, ..self },
            Instruction::Random { x, nn } => self.with_register(x, random & nn),
            Instruction::Draw { x, y, n } => {
                let left = self.v[x as int] as int % (WIDTH as int);
                let top = self.v[y as int] as int % (HEIGHT as int);
                State {
                    display: drawn(self.display, left, top, self.sprite(n)),
                    display_changed: true,
                    ..self.with_flag(collides(self.display, left, top, self.sprite(n)))
                }
            },
            Instruction::ReadDelay { x } => self.with_register(x, self.delay_timer),
            Instruction::ReadKey { x } => self.with_register(x, 0),
            Instruction::SetDelay { x } => State {
                delay_timer: if self.delay_instruction_blocks {
                    0
                } else {
                    self.v[x as int]
                },
                ..self
            },
            Instruction::SetSound { x } => State { sound_timer: self.v[x as int], ..self },
            Instruction::AddIndex { x } => State {
                i: ((self.i + self.v[x as int]) % 0x1_0000_0000) as u32,
                ..self
            },
            Instruction::FontAddress { x } => State {
                i: (GLYPH_BYTES * self.v[x as int]) as u32,
                ..self
            },
            Instruction::StoreBcd { x } => {
                let value = self.v[x as int];
                State {
                    memory: self.memory.update(self.i as int, value / 100).update(
                        self.i + 1,
                        value / 10 % 10,
                    ).update(self.i + 2, value % 10),
                    ..self
                }
            },
            Instruction::DumpRegisters { x } => State {
                memory: Seq::new(
                    self.memory.len(),
                    |a: int|
                        if self.i <= a <= self.i + x {
                            self.v[a - self.i]
                        } else {
                            self.memory[a]
                        },
                ),
                ..self
            },
            Instruction::LoadRegisters { x } => State {
                v: Seq::new(
                    self.v.len(),
                    |k: int|
                        if k <= x {
                            self.memory[self.i + k]
                        } else {
                            self.v[k]
                        },
                ),
                ..self
            },
            _ => self,
        }
    }

    /// The state after `instruction`, where it raises no fault.
    pub open spec fn after(self, instruction: Instruction, random: u8) -> State {
        State { pc: self.target(instruction) as u32, ..self.effect(instruction, random) }
    }

    /// Whether `instruction` hands the frame on the display to the host
    /// before it changes the display: clearing a screen that holds a frame
    /// not yet shown.
    pub open spec fn flushes(self, instruction: Instruction) -> bool {
        instruction == Instruction::ClearScreen && self.display_changed
    }

    /// How long the host has to block after `instruction`, in milliseconds:
    /// where setting the delay timer blocks, the time that the timer would
    /// have taken to run out.
    pub open spec fn wait_millis(self, instruction: Instruction) -> int {
        match instruction {
            Instruction::SetDelay { x } => if self.delay_instruction_blocks {
                WAIT_UNIT_MS * self.v[x as int]
            } else {
                0
            },
            _ => 0,
        }
    }

    /// The fault that the next step raises, if it raises one: the
    /// instruction cannot be fetched, or it raises a fault itself.
    pub open spec fn step_fault(self) -> Option<Fault> {
        if !self.fetchable() {
            Some(Fault::MemoryOverflow)
        } else {
            self.fault(self.next())
        }
    }

    /// The state after the instruction at the program counter.
    pub open spec fn stepped(self, random: u8) -> State {
        self.after(self.next(), random)
    }

    /// Whether a frame is handed to the host at a tick at time `now`.
    pub open spec fn presents(self, now: u64) -> bool {
        due(self.last_tick, now) && self.display_changed && !self.render_on_clear_only
    }

    /// Whether the tone sounds at a tick at time `now`.
    pub open spec fn sounds(self, now: u64) -> bool {
        due(self.last_tick, now) && self.sound_timer > 0
    }

    /// The state after the timers were looked after at time `now`. If a
    /// tick is due, both timers count down by one, the tick is dated `now`,
    /// and a frame that is handed out is no longer pending; if none is
    /// due, nothing changes.
    pub open spec fn ticked(self, now: u64) -> State {
        if due(self.last_tick, now) {
            State {
                delay_timer: wound_down(self.delay_timer),
                sound_timer: wound_down(self.sound_timer),
                last_tick: now,
                display_changed: self.display_changed && self.render_on_clear_only,
                ..self
            }
        } else {
            self
        }
    }

    /// The state after one whole step at time `now`: the instruction at the
    /// program counter, then the timers.
    pub open spec fn ran(self, random: u8, now: u64) -> State {
        self.stepped(random).ticked(now)
    }

    /// The state after a run of whole steps, one for each entry of `inputs`:
    /// the random byte and the time of that step.
    pub open spec fn ran_all(self, inputs: Seq<(u8, u64)>) -> State
        decreases inputs.len(),
    {
        if inputs.len() == 0 {
            self
        } else {
            self.ran_all(inputs.drop_last()).ran(inputs.last().0, inputs.last().1)
        }
    }

    /// Whether a run of whole steps goes through with the delay timer left
    /// to the timer governor: no step raises a fault, and none executes the
    /// instruction that sets the delay timer.
    pub open spec fn runs_undisturbed(self, inputs: Seq<(u8, u64)>) -> bool
        decreases inputs.len(),
    {
        inputs.len() == 0 || {
            let before = self.ran_all(inputs.drop_last());
            &&& self.runs_undisturbed(inputs.drop_last())
            &&& before.step_fault() is None
            &&& !(before.next() is SetDelay)
        }
    }
}

} // verus!
