//! Laws of the machine: what holds of the model for every state and every
//! operand, proved from the definitions.

use crate::decode::Instruction;
use crate::display::{
    blank, collides, drawn, grid_wf, sprite_bit, sprite_covers, HEIGHT, WIDTH,
};
use crate::fault::Fault;
use crate::model::{font, State, FLAG, REGISTERS};
use crate::timer::{due, wound_down, TICK_INTERVAL_MS};
use vstd::prelude::*;

verus! {

/// The arithmetic instructions wrap modulo 256, and the flag that the
/// register forms leave in `VF` is that of the exact sum or difference, not
/// of the wrapped result. Adding an immediate leaves every other register,
/// `VF` included, as it was. Where the destination is `VF` itself, the flag
/// is what stays in it.
pub proof fn law_arithmetic_wraps(s: State, x: u8, y: u8, nn: u8, random: u8)
    requires
        s.wf(),
        x < REGISTERS,
        y < REGISTERS,
    ensures
        s.after(Instruction::Add { x, nn }, random).v == s.v.update(
            x as int,
            ((s.v[x as int] + nn) % 256) as u8,
        ),
        s.after(Instruction::AddRegister { x, y }, random).v[FLAG as int] == (if s.v[x as int]
            + s.v[y as int] > 255 {
            1u8
        } else {
            0u8
        }),
        s.after(Instruction::Subtract { x, y }, random).v[FLAG as int] == (if s.v[x as int]
            > s.v[y as int] {
            1u8
        } else {
            0u8
        }),
        s.after(Instruction::ReverseSubtract { x, y }, random).v[FLAG as int] == (if s.v[y as int]
            > s.v[x as int] {
            1u8
        } else {
            0u8
        }),
        x != FLAG ==> {
            &&& s.after(Instruction::AddRegister { x, y }, random).v[x as int] == (s.v[x as int]
                + s.v[y as int]) % 256
            &&& s.after(Instruction::Subtract { x, y }, random).v[x as int] == (s.v[x as int]
                - s.v[y as int]) % 256
            &&& s.after(Instruction::ReverseSubtract { x, y }, random).v[x as int] == (s.v[y as int]
                - s.v[x as int]) % 256
        },
{
}

/// A shift into a register other than `VF` leaves in `VF` the bit that was
/// shifted out, whatever goes to the register: the lowest bit for a shift to
/// the right, the highest for a shift to the left.
pub proof fn law_shift_keeps_the_lost_bit(s: State, x: u8, random: u8)
    requires
        s.wf(),
        x < REGISTERS,
        x != FLAG,
    ensures
        s.after(Instruction::ShiftRight { x }, random).v[FLAG as int] == s.v[x as int] % 2,
        s.after(Instruction::ShiftRight { x }, random).v[x as int] == s.v[x as int] / 2,
        s.after(Instruction::ShiftLeft { x }, random).v[FLAG as int] == s.v[x as int] / 128,
        s.after(Instruction::ShiftLeft { x }, random).v[x as int] == s.v[x as int] * 2 % 256,
{
}

/// A sprite whose rows are all zero changes no pixel and collides with
/// nothing, wherever it is drawn.
pub proof fn law_empty_sprite_draws_nothing(grid: Seq<Seq<bool>>, x0: int, y0: int, sprite: Seq<u8>)
    requires
        grid_wf(grid),
        forall|r: int| 0 <= r < sprite.len() ==> sprite[r] == 0,
    ensures
        drawn(grid, x0, y0, sprite) == grid,
        !collides(grid, x0, y0, sprite),
{
    assert forall|b: int| !sprite_bit(0u8, b) by {
        if 0 <= b < 8 {
            let shift = b as u8;
            assert(0u8 & (0x80u8 >> shift) == 0) by (bit_vector);
        }
    }
    assert(drawn(grid, x0, y0, sprite) =~~= grid);
}

/// Clearing the screen leaves every pixel off and no frame pending, and
/// changes nothing else but the program counter.
pub proof fn law_clear_screen_blanks(s: State, random: u8)
    ensures
        s.after(Instruction::ClearScreen, random).display == blank(),
        !s.after(Instruction::ClearScreen, random).display_changed,
        forall|x: int, y: int|
            0 <= x < WIDTH && 0 <= y < HEIGHT ==> !s.after(
                Instruction::ClearScreen,
                random,
            ).display[x][y],
        s.after(Instruction::ClearScreen, random) == (State {
            display: blank(),
            display_changed: false,
            pc: s.after(Instruction::ClearScreen, random).pc,
            ..s
        }),
{
}

/// A sprite of zero rows drawn straight after the screen was cleared leaves
/// every pixel off, with `VF` at 0.
pub proof fn law_clear_then_empty_draw(s: State, x: u8, y: u8, n: u8, random: u8)
    requires
        s.wf(),
        x < REGISTERS,
        y < REGISTERS,
        s.in_bounds(Instruction::Draw { x, y, n }),
        forall|r: int| 0 <= r < n ==> s.sprite(n)[r] == 0,
    ensures
        s.after(Instruction::ClearScreen, random).after(
            Instruction::Draw { x, y, n },
            random,
        ).display == blank(),
        s.after(Instruction::ClearScreen, random).after(
            Instruction::Draw { x, y, n },
            random,
        ).v[FLAG as int] == 0,
{
    let cleared = s.after(Instruction::ClearScreen, random);
    let left = cleared.v[x as int] as int % (WIDTH as int);
    let top = cleared.v[y as int] as int % (HEIGHT as int);
    assert(s.sprite(n).len() == n);
    law_empty_sprite_draws_nothing(blank(), left, top, cleared.sprite(n));
}

/// Dumping `V0` to `V[x]` to memory and loading the same range back
/// restores those registers, whatever became of them in between, and
/// touches no other register.
pub proof fn law_dump_then_load_restores(s: State, x: u8, scratch: Seq<u8>, random: u8)
    requires
        s.wf(),
        x < REGISTERS,
        s.in_bounds(Instruction::DumpRegisters { x }),
        scratch.len() == REGISTERS,
    ensures
        s.after(Instruction::DumpRegisters { x }, random).after(
            Instruction::LoadRegisters { x },
            random,
        ).v == s.v,
        forall|k: int|
            0 <= k <= x ==> (State {
                v: scratch,
                ..s.after(Instruction::DumpRegisters { x }, random)
            }).after(Instruction::LoadRegisters { x }, random).v[k] == s.v[k],
        forall|k: int|
            x < k < REGISTERS ==> (State {
                v: scratch,
                ..s.after(Instruction::DumpRegisters { x }, random)
            }).after(Instruction::LoadRegisters { x }, random).v[k] == scratch[k],
{
    assert(s.after(Instruction::DumpRegisters { x }, random).after(
        Instruction::LoadRegisters { x },
        random,
    ).v =~= s.v);
}

/// Drawing a sprite twice at the same place gives back the grid as it was,
/// and the second draw collides exactly if the first one turned a pixel on.
pub proof fn law_draw_twice_restores(grid: Seq<Seq<bool>>, x0: int, y0: int, sprite: Seq<u8>)
    requires
        grid_wf(grid),
    ensures
        drawn(drawn(grid, x0, y0, sprite), x0, y0, sprite) == grid,
        collides(drawn(grid, x0, y0, sprite), x0, y0, sprite) <==> exists|x: int, y: int|
            0 <= x < WIDTH && 0 <= y < HEIGHT && !#[trigger] grid[x][y] && sprite_covers(
                x0,
                y0,
                sprite,
                x,
                y,
            ),
{
    let once = drawn(grid, x0, y0, sprite);
    assert(drawn(once, x0, y0, sprite) =~~= grid);
}

/// The draw instruction, executed twice with coordinates that come from
/// registers other than `VF`, gives back the display as it was; the second
/// time `VF` is 1 exactly if the first draw turned a pixel on.
pub proof fn law_draw_instruction_twice_restores(s: State, x: u8, y: u8, n: u8, random: u8)
    requires
        s.wf(),
        x < REGISTERS,
        y < REGISTERS,
        x != FLAG,
        y != FLAG,
    ensures
        s.after(Instruction::Draw { x, y, n }, random).after(
            Instruction::Draw { x, y, n },
            random,
        ).display == s.display,
        s.after(Instruction::Draw { x, y, n }, random).after(
            Instruction::Draw { x, y, n },
            random,
        ).v[FLAG as int] == 1 <==> exists|px: int, py: int|
            0 <= px < WIDTH && 0 <= py < HEIGHT && !#[trigger] s.display[px][py] && sprite_covers(
                s.v[x as int] as int % (WIDTH as int),
                s.v[y as int] as int % (HEIGHT as int),
                s.sprite(n),
                px,
                py,
            ),
{
    let left = s.v[x as int] as int % (WIDTH as int);
    let top = s.v[y as int] as int % (HEIGHT as int);
    law_draw_twice_restores(s.display, left, top, s.sprite(n));
}

/// A skip instruction that raises no fault moves the program counter on by
/// exactly 4 where its condition holds and by exactly 2 where it does not,
/// whatever the registers hold, and changes nothing else.
pub proof fn law_skip_advances(s: State, instruction: Instruction, random: u8)
    requires
        s.wf(),
        instruction.wf(),
        instruction is SkipIfEqual || instruction is SkipIfNotEqual
            || instruction is SkipIfRegistersEqual || instruction is SkipIfRegistersNotEqual,
        s.fault(instruction) is None,
    ensures
        ({
            let holds = match instruction {
                Instruction::SkipIfEqual { x, nn } => s.v[x as int] == nn,
                Instruction::SkipIfNotEqual { x, nn } => s.v[x as int] != nn,
                Instruction::SkipIfRegistersEqual { x, y } => s.v[x as int] == s.v[y as int],
                Instruction::SkipIfRegistersNotEqual { x, y } => s.v[x as int] != s.v[y as int],
                _ => false,
            };
            &&& holds ==> s.after(instruction, random).pc == s.pc + 4
            &&& !holds ==> s.after(instruction, random).pc == s.pc + 2
            &&& s.after(instruction, random) == (State {
                pc: s.after(instruction, random).pc,
                ..s
            })
        }),
{
}

/// A jump raises the self-jump fault exactly if it leads to its own
/// address, and it raises no other; so does a step that fetches a jump.
pub proof fn law_self_jump_faults(s: State, addr: u16)
    ensures
        s.fault(Instruction::Jump { addr }) == (if addr == s.pc {
            Some(Fault::SelfJump)
        } else {
            None
        }),
        s.fetchable() && s.next() == (Instruction::Jump { addr }) ==> s.step_fault() == (if addr
            == s.pc {
            Some(Fault::SelfJump)
        } else {
            None
        }),
{
}

/// The program counter stays even from one instruction to the next, as
/// long as no transfer leads to an odd address.
pub proof fn law_program_counter_stays_even(s: State, instruction: Instruction, random: u8)
    requires
        s.wf(),
        instruction.wf(),
        s.fault(instruction) is None,
        s.pc % 2 == 0,
        s.transfers(instruction) ==> s.target(instruction) % 2 == 0,
    ensures
        s.after(instruction, random).pc % 2 == 0,
{
}

/// An instruction that stays within memory writes to it only in the
/// sixteen bytes from `I` on: every other byte stays as it was. So the font
/// stays as long as `I` is at or above its end whenever an instruction
/// writes.
pub proof fn law_memory_changes_only_at_index(s: State, instruction: Instruction, random: u8)
    requires
        s.wf(),
        instruction.wf(),
        s.in_bounds(instruction),
    ensures
        s.after(instruction, random).memory.len() == s.memory.len(),
        forall|a: int|
            0 <= a < s.memory.len() && !(s.i <= a < s.i + REGISTERS) ==> s.after(
                instruction,
                random,
            ).memory[a] == s.memory[a],
        s.i >= font().len() ==> s.after(instruction, random).memory.subrange(
            0,
            font().len() as int,
        ) == s.memory.subrange(0, font().len() as int),
{
    assert(s.i >= font().len() ==> s.after(instruction, random).memory.subrange(
        0,
        font().len() as int,
    ) =~= s.memory.subrange(0, font().len() as int));
}

/// An instruction leaves the time of the last tick alone, and the delay
/// timer too unless it is the instruction that sets it.
pub proof fn law_instructions_leave_the_clock(s: State, instruction: Instruction, random: u8)
    ensures
        s.after(instruction, random).last_tick == s.last_tick,
        !(instruction is SetDelay) ==> s.after(instruction, random).delay_timer == s.delay_timer,
{
}

/// One whole step counts the delay timer down by one if a tick is due at
/// its time, and not at all if none is, whatever instruction it executes
/// but the one that sets the timer.
pub proof fn law_step_counts_down_once(s: State, random: u8, now: u64)
    requires
        !(s.next() is SetDelay),
    ensures
        s.ran(random, now).delay_timer == (if due(s.last_tick, now) {
            wound_down(s.delay_timer)
        } else {
            s.delay_timer
        }),
        s.ran(random, now).last_tick == (if due(s.last_tick, now) {
            now
        } else {
            s.last_tick
        }),
{
}

/// Over a run of whole steps whose times never go back, the delay timer
/// only falls, and it falls by no more than the number of full tick
/// intervals that went by between the last tick before the run and the last
/// step, however many steps the run has.
pub proof fn law_timer_never_outruns_the_clock(s: State, inputs: Seq<(u8, u64)>)
    requires
        s.runs_undisturbed(inputs),
        forall|j: int, k: int| 0 <= j <= k < inputs.len() ==> inputs[j].1 <= inputs[k].1,
        inputs.len() > 0,
        s.last_tick <= inputs[0].1,
    ensures
        s.ran_all(inputs).delay_timer <= s.delay_timer,
        s.delay_timer - s.ran_all(inputs).delay_timer <= (inputs.last().1 - s.last_tick) / (
        TICK_INTERVAL_MS as int),
{
    lemma_ticks_are_paid_for(s, inputs);
}

/// Over a run of whole steps of which none comes a full tick interval
/// after the last tick before the run, the delay timer does not move,
/// however many steps the run has.
pub proof fn law_no_tick_within_an_interval(s: State, inputs: Seq<(u8, u64)>)
    requires
        s.runs_undisturbed(inputs),
        forall|k: int| 0 <= k < inputs.len() ==> !due(s.last_tick, (#[trigger] inputs[k]).1),
    ensures
        s.ran_all(inputs).delay_timer == s.delay_timer,
        s.ran_all(inputs).last_tick == s.last_tick,
    decreases inputs.len(),
{
    if inputs.len() > 0 {
        let earlier = inputs.drop_last();
        law_no_tick_within_an_interval(s, earlier);
        let last = inputs[inputs.len() - 1];
        law_step_counts_down_once(s.ran_all(earlier), last.0, last.1);
    }
}

/// Over a run of whole steps that come at least once in every millisecond,
/// the first of them no later than the first tick is due, the delay timer
/// falls by exactly the number of full tick intervals that went by between
/// the last tick before the run and the last step, until it rests at zero.
pub proof fn law_dense_steps_count_every_interval(s: State, inputs: Seq<(u8, u64)>)
    requires
        s.runs_undisturbed(inputs),
        inputs.len() > 0,
        s.last_tick <= inputs[0].1 <= s.last_tick + TICK_INTERVAL_MS,
        forall|k: int|
            0 <= k < inputs.len() - 1 ==> (#[trigger] inputs[k]).1 <= inputs[k + 1].1
                <= inputs[k].1 + 1,
    ensures
        s.ran_all(inputs).delay_timer == (if s.delay_timer >= (inputs.last().1 - s.last_tick) / (
        TICK_INTERVAL_MS as int) {
            s.delay_timer - (inputs.last().1 - s.last_tick) / (TICK_INTERVAL_MS as int)
        } else {
            0
        }),
        s.ran_all(inputs).last_tick == s.last_tick + TICK_INTERVAL_MS * ((inputs.last().1
            - s.last_tick) / (TICK_INTERVAL_MS as int)),
    decreases inputs.len(),
{
    let earlier = inputs.drop_last();
    let last = inputs[inputs.len() - 1];
    if earlier.len() > 0 {
        law_dense_steps_count_every_interval(s, earlier);
    }
    law_step_counts_down_once(s.ran_all(earlier), last.0, last.1);
}

/// Every tick of a run is paid for by a full interval of time: the ticks
/// that the delay timer counted, times the interval, fit between the last
/// tick before the run and the last tick of the run, which is no later than
/// the last step.
proof fn lemma_ticks_are_paid_for(s: State, inputs: Seq<(u8, u64)>)
    requires
        s.runs_undisturbed(inputs),
        forall|j: int, k: int| 0 <= j <= k < inputs.len() ==> inputs[j].1 <= inputs[k].1,
        inputs.len() > 0 ==> s.last_tick <= inputs[0].1,
    ensures
        s.ran_all(inputs).delay_timer <= s.delay_timer,
        s.last_tick <= s.ran_all(inputs).last_tick,
        inputs.len() > 0 ==> s.ran_all(inputs).last_tick <= inputs.last().1,
        (s.delay_timer - s.ran_all(inputs).delay_timer) * TICK_INTERVAL_MS <= s.ran_all(
            inputs,
        ).last_tick - s.last_tick,
    decreases inputs.len(),
{
    if inputs.len() > 0 {
        let earlier = inputs.drop_last();
        lemma_ticks_are_paid_for(s, earlier);
        let last = inputs[inputs.len() - 1];
        law_step_counts_down_once(s.ran_all(earlier), last.0, last.1);
    }
}

} // verus!
