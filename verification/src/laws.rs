//! Laws of the machine: what holds of every state, of every pair of
//! operands, and of instructions carried out one after another.

use vstd::prelude::*;
use crate::decode::{spec_decode, Instruction};
use crate::keypad::Keys;
use crate::model::{Fault, MachineState, Mode, Outcome, DISPLAY_HEIGHT, DISPLAY_WIDTH, MEMORY_SIZE, STACK_TOP, VF};
use crate::screen::collides;

verus! {

/// The state after `count` periods of the timers.
pub open spec fn after_ticks(state: MachineState, count: nat) -> MachineState
    decreases count,
{
    if count == 0 {
        state
    } else {
        after_ticks(state.tick().0, (count - 1) as nat)
    }
}

/// An instruction leaves a valid state valid: the sizes stay, the index
/// register stays within twelve bits and the stack pointer within the stack.
pub proof fn law_execute_keeps_valid(state: MachineState, opcode: u16, keys: Keys, random: u8)
    requires
        state.valid(),
        spec_decode(opcode).may_skip() ==> state.can_skip(),
    ensures
        state.execute(spec_decode(opcode), keys, random).0.valid(),
{
}

/// An instruction that ends in a fault has changed nothing.
pub proof fn law_fault_changes_nothing(state: MachineState, instruction: Instruction, keys: Keys, random: u8)
    requires
        state.execute(instruction, keys, random).1 is Fault,
    ensures
        state.execute(instruction, keys, random).0 == state,
{
}

/// A step leaves a valid state valid.
pub proof fn law_step_keeps_valid(state: MachineState, keys: Keys, random: u8)
    requires
        state.valid(),
    ensures
        state.step(keys, random).0.valid(),
{
    if state.can_fetch() && state.mode is Running {
        law_execute_keeps_valid(state, state.fetch(), keys, random);
        law_execute_keeps_valid(state.advanced(), state.fetch(), keys, random);
    }
}

/// A step that ends in a fault leaves the machine as it was, so that every
/// later step ends in the same fault: the machine has halted.
pub proof fn law_fault_halts(state: MachineState, keys: Keys, random: u8, later_keys: Keys, later_random: u8)
    requires
        state.valid(),
        state.step(keys, random).1 is Fault,
    ensures
        state.step(keys, random).0 == state,
        state.step(later_keys, later_random) == state.step(keys, random),
{
}

/// A word that names no instruction is passed over: only the program
/// counter changes, and the word is reported.
pub proof fn law_unknown_is_passed_over(state: MachineState, keys: Keys, random: u8)
    requires
        state.valid(),
        state.can_fetch(),
        state.mode is Running,
        spec_decode(state.fetch()) is Unknown,
    ensures
        state.step(keys, random) == (state.with_pc(state.pc + 2), Outcome::UnknownOpcode(state.fetch())),
{
}

/// `ADD Vx, Vy`: for all bytes in `Vx` and `Vy`, `Vx` becomes their sum
/// modulo 256, and `VF` becomes 1 if the sum is 256 or more and 0 if not.
/// No other register changes, and nothing but the registers.
pub proof fn law_add_registers(state: MachineState, x: int, y: int)
    requires
        state.valid(),
        0 <= x < 16,
        0 <= y < 16,
    ensures
        ({
            let sum = state.registers[x] + state.registers[y];
            let after = state.add_registers(x, y);
            &&& after == MachineState { registers: after.registers, ..state }
            &&& x != VF ==> after.registers[x] == sum % 256
            &&& after.registers[VF as int] == 1 <==> sum >= 256
            &&& after.registers[VF as int] == 0 <==> sum < 256
            &&& forall|r: int| 0 <= r < 16 && r != x && r != VF ==> after.registers[r] == state.registers[r]
        }),
{
}

/// `SUB Vx, Vy`: for all bytes in `Vx` and `Vy`, `Vx` becomes their
/// difference modulo 256, and `VF` becomes 1 if `Vx >= Vy` held and 0 if
/// not. No other register changes, and nothing but the registers.
pub proof fn law_sub_registers(state: MachineState, x: int, y: int)
    requires
        state.valid(),
        0 <= x < 16,
        0 <= y < 16,
    ensures
        ({
            let a = state.registers[x];
            let b = state.registers[y];
            let after = state.sub_registers(x, y);
            &&& after == MachineState { registers: after.registers, ..state }
            &&& x != VF ==> after.registers[x] == (a - b) % 256
            &&& x != VF && a >= b ==> after.registers[x] == a - b
            &&& x != VF && a < b ==> after.registers[x] == a - b + 256
            &&& after.registers[VF as int] == 1 <==> a >= b
            &&& after.registers[VF as int] == 0 <==> a < b
            &&& forall|r: int| 0 <= r < 16 && r != x && r != VF ==> after.registers[r] == state.registers[r]
        }),
{
}

/// `SUBN Vx, Vy` is `SUB` with the operands exchanged: `Vx` becomes
/// `Vy - Vx` modulo 256, and `VF` becomes 1 if `Vy >= Vx` held and 0 if not.
pub proof fn law_subn_registers(state: MachineState, x: int, y: int)
    requires
        state.valid(),
        0 <= x < 16,
        0 <= y < 16,
    ensures
        ({
            let a = state.registers[x];
            let b = state.registers[y];
            let after = state.subn_registers(x, y);
            &&& after == MachineState { registers: after.registers, ..state }
            &&& x != VF ==> after.registers[x] == (b - a) % 256
            &&& x != VF && b >= a ==> after.registers[x] == b - a
            &&& x != VF && b < a ==> after.registers[x] == b - a + 256
            &&& after.registers[VF as int] == 1 <==> b >= a
            &&& after.registers[VF as int] == 0 <==> b < a
            &&& forall|r: int| 0 <= r < 16 && r != x && r != VF ==> after.registers[r] == state.registers[r]
        }),
{
}

/// `SHR Vx` halves `Vx` and puts the bit that falls off, the lowest one,
/// into `VF`; `SHL Vx` doubles `Vx` modulo 256 and puts the bit that falls
/// off, the highest one, into `VF`. No other register changes, and nothing
/// but the registers.
pub proof fn law_shifts(state: MachineState, x: int)
    requires
        state.valid(),
        0 <= x < 16,
    ensures
        ({
            let a = state.registers[x];
            let right = state.shr_registers(x);
            let left = state.shl_registers(x);
            &&& right == MachineState { registers: right.registers, ..state }
            &&& left == MachineState { registers: left.registers, ..state }
            &&& forall|r: int| 0 <= r < 16 && r != x && r != VF ==> right.registers[r] == state.registers[r]
            &&& forall|r: int| 0 <= r < 16 && r != x && r != VF ==> left.registers[r] == state.registers[r]
            &&& x != VF ==> right.registers[x] == a / 2
            &&& right.registers[VF as int] == a % 2
            &&& x != VF ==> 2 * right.registers[x] + right.registers[VF as int] == a
            &&& x != VF ==> left.registers[x] == (a * 2) % 256
            &&& left.registers[VF as int] == a / 128
            &&& x != VF ==> left.registers[x] + 256 * left.registers[VF as int] == 2 * a
        }),
{
}

/// `CLS` turns every pixel off and changes nothing else.
pub proof fn law_clear_display(state: MachineState)
    ensures
        state.cls() == (MachineState { display: state.cls().display, ..state }),
        state.cls().display.len() == state.display.len(),
        forall|cell: int| 0 <= cell < state.display.len() ==> !#[trigger] state.cls().display[cell],
{
}

/// A sprite drawn where the display is dark collides with nothing: `VF`
/// becomes 0.
pub proof fn law_draw_on_dark_region(state: MachineState, x: int, y: int, n: int)
    requires
        state.valid(),
        0 <= x < 16,
        0 <= y < 16,
        0 <= n < 16,
        state.index + n <= MEMORY_SIZE,
        forall|cell: int|
            0 <= cell < state.display.len() && state.sprite(x, y, n).lights(
                DISPLAY_WIDTH as int,
                DISPLAY_HEIGHT as int,
                cell % (DISPLAY_WIDTH as int),
                cell / (DISPLAY_WIDTH as int),
            ) ==> !#[trigger] state.display[cell],
    ensures
        state.draw(x, y, n) is Ok,
        state.draw(x, y, n)->Ok_0.registers[VF as int] == 0,
{
    let sprite = state.sprite(x, y, n);
    let w = DISPLAY_WIDTH as int;
    let h = DISPLAY_HEIGHT as int;
    if collides(state.display, w, h, sprite) {
        let cell = choose|cell: int| 0 <= cell < state.display.len() && #[trigger] sprite.hits(state.display, w, h, cell);
        assert(state.display[cell]);
    }
}

/// After `CLS`, whatever is drawn first collides with nothing: `VF`
/// becomes 0.
pub proof fn law_clear_then_draw(state: MachineState, x: int, y: int, n: int)
    requires
        state.valid(),
        0 <= x < 16,
        0 <= y < 16,
        0 <= n < 16,
        state.index + n <= MEMORY_SIZE,
    ensures
        state.cls().draw(x, y, n) is Ok,
        state.cls().draw(x, y, n)->Ok_0.registers[VF as int] == 0,
{
    law_draw_on_dark_region(state.cls(), x, y, n);
}

/// Drawing the same sprite twice at the same place, its coordinates held
/// in registers other than `VF`, brings the display back to what it was.
/// The second draw sets `VF` to 1 exactly if the sprite lights a pixel that
/// was dark before the first draw.
pub proof fn law_draw_twice(state: MachineState, x: int, y: int, n: int)
    requires
        state.valid(),
        0 <= x < 16,
        0 <= y < 16,
        x != VF,
        y != VF,
        0 <= n < 16,
        state.index + n <= MEMORY_SIZE,
    ensures
        state.draw(x, y, n) is Ok,
        state.draw(x, y, n)->Ok_0.draw(x, y, n) is Ok,
        state.draw(x, y, n)->Ok_0.draw(x, y, n)->Ok_0.display == state.display,
        state.draw(x, y, n)->Ok_0.draw(x, y, n)->Ok_0.registers[VF as int] == 1 <==> exists|cell: int|
            0 <= cell < state.display.len() && !state.display[cell] && #[trigger] state.sprite(x, y, n).lights(
                DISPLAY_WIDTH as int,
                DISPLAY_HEIGHT as int,
                cell % (DISPLAY_WIDTH as int),
                cell / (DISPLAY_WIDTH as int),
            ),
{
    let sprite = state.sprite(x, y, n);
    let w = DISPLAY_WIDTH as int;
    let h = DISPLAY_HEIGHT as int;
    let first = state.draw(x, y, n)->Ok_0;
    assert(first.sprite(x, y, n) == sprite);
    let second = first.draw(x, y, n)->Ok_0;
    assert(second.display =~= state.display);
    if collides(first.display, w, h, sprite) {
        let cell = choose|cell: int| 0 <= cell < first.display.len() && #[trigger] sprite.hits(first.display, w, h, cell);
        assert(!state.display[cell] && sprite.lights(w, h, cell % w, cell / w));
    }
    if exists|cell: int|
        0 <= cell < state.display.len() && !state.display[cell] && #[trigger] sprite.lights(w, h, cell % w, cell / w) {
        let cell = choose|cell: int|
            0 <= cell < state.display.len() && !state.display[cell] && #[trigger] sprite.lights(
                w,
                h,
                cell % w,
                cell / w,
            );
        assert(sprite.hits(first.display, w, h, cell));
    }
}

/// Drawing a sprite on a dark region and then once more at the same place
/// turns its pixels off again and, if the sprite has a lit pixel at all,
/// sets `VF` to 1.
pub proof fn law_draw_twice_on_dark_region(state: MachineState, x: int, y: int, n: int, lit: int)
    requires
        state.valid(),
        0 <= x < 16,
        0 <= y < 16,
        x != VF,
        y != VF,
        0 <= n < 16,
        state.index + n <= MEMORY_SIZE,
        0 <= lit < state.display.len(),
        !state.display[lit],
        state.sprite(x, y, n).lights(
            DISPLAY_WIDTH as int,
            DISPLAY_HEIGHT as int,
            lit % (DISPLAY_WIDTH as int),
            lit / (DISPLAY_WIDTH as int),
        ),
    ensures
        state.draw(x, y, n)->Ok_0.display[lit],
        !state.draw(x, y, n)->Ok_0.draw(x, y, n)->Ok_0.display[lit],
        state.draw(x, y, n)->Ok_0.draw(x, y, n)->Ok_0.registers[VF as int] == 1,
{
    law_draw_twice(state, x, y, n);
}

/// `CALL` followed by `RET` brings the program counter back to where it
/// stood when the `CALL` was executed, which is on the instruction after the
/// `CALL`, and leaves the stack pointer as it was before the `CALL`.
pub proof fn law_call_then_return(state: MachineState, nnn: int)
    requires
        state.valid(),
        state.sp < STACK_TOP,
    ensures
        state.call(nnn) is Ok,
        state.call(nnn)->Ok_0.pc == nnn,
        state.call(nnn)->Ok_0.ret() is Ok,
        state.call(nnn)->Ok_0.ret()->Ok_0.pc == state.pc,
        state.call(nnn)->Ok_0.ret()->Ok_0.sp == state.sp,
{
}

/// A step that performs a `CALL`, followed by a step that performs a `RET`,
/// leaves the program counter on the instruction after the `CALL` and the
/// stack pointer as it was before the `CALL`.
pub proof fn law_call_then_return_in_steps(state: MachineState, nnn: u16, keys: Keys, random: u8)
    requires
        state.valid(),
        state.mode is Running,
        state.can_fetch(),
        spec_decode(state.fetch()) == Instruction::Call(nnn),
        state.sp < STACK_TOP,
        state.with_pc(nnn as int).can_fetch(),
        spec_decode(state.with_pc(nnn as int).fetch()) == Instruction::Ret,
    ensures
        state.step(keys, random).1 == Outcome::Completed,
        state.step(keys, random).0.pc == nnn,
        state.step(keys, random).0.step(keys, random).1 == Outcome::Completed,
        state.step(keys, random).0.step(keys, random).0.pc == state.pc + 2,
        state.step(keys, random).0.step(keys, random).0.sp == state.sp,
{
    let called = state.step(keys, random).0;
    assert(called == state.advanced().call(nnn as int)->Ok_0);
    assert(called.fetch() == state.with_pc(nnn as int).fetch());
}

/// `CALL` faults exactly on a full stack and `RET` exactly on an empty one.
pub proof fn law_stack_faults(state: MachineState, nnn: int)
    requires
        state.valid(),
    ensures
        state.call(nnn) == Err::<MachineState, Fault>(Fault::StackFault) <==> state.sp == STACK_TOP,
        state.ret() == Err::<MachineState, Fault>(Fault::StackFault) <==> state.sp == 0,
        state.call(nnn) is Ok <==> state.sp < STACK_TOP,
        state.ret() is Ok <==> state.sp > 0,
{
}

/// A tick changes the timers and nothing else; each timer that is not
/// zero goes down by one, whatever the other one holds. The tick beeps
/// exactly if the sound timer goes from 1 to 0.
pub proof fn law_tick(state: MachineState)
    ensures
        state.tick().0 == (MachineState {
            delay_timer: state.tick().0.delay_timer,
            sound_timer: state.tick().0.sound_timer,
            ..state
        }),
        state.tick().0.delay_timer == if state.delay_timer == 0 {
            0
        } else {
            state.delay_timer - 1
        },
        state.tick().0.sound_timer == if state.sound_timer == 0 {
            0
        } else {
            state.sound_timer - 1
        },
        state.tick().1 <==> state.sound_timer == 1 && state.tick().0.sound_timer == 0,
{
}

/// A step does not count the timers down: unless its instruction sets a
/// timer, the timers are after the step what they were before it.
pub proof fn law_step_leaves_timers(state: MachineState, keys: Keys, random: u8)
    requires
        state.valid(),
        !(state.can_fetch() && state.mode is Running && (spec_decode(state.fetch()) is SetDelay || spec_decode(
            state.fetch(),
        ) is SetSound)),
    ensures
        state.step(keys, random).0.delay_timer == state.delay_timer,
        state.step(keys, random).0.sound_timer == state.sound_timer,
{
}

/// Ticks and steps do not depend on each other: unless the instruction
/// reads or sets a timer, a tick before a step and a tick after it leave the
/// same state, and the step ends in the same way.
pub proof fn law_tick_and_step_commute(state: MachineState, keys: Keys, random: u8)
    requires
        state.valid(),
        !(state.can_fetch() && state.mode is Running && (spec_decode(state.fetch()) is SetDelay || spec_decode(
            state.fetch(),
        ) is SetSound || spec_decode(state.fetch()) is LdDelay)),
    ensures
        state.tick().0.step(keys, random).0 == state.step(keys, random).0.tick().0,
        state.tick().0.step(keys, random).1 == state.step(keys, random).1,
        state.step(keys, random).0.tick().1 == state.tick().1,
{
    if state.can_fetch() {
        match state.mode {
            Mode::AwaitingKey(x) => {
                assert(state.tick().0.await_key(x, keys) =~= state.await_key(x, keys).tick().0);
            },
            Mode::Running => {
                let instruction = spec_decode(state.fetch());
                assert(state.tick().0.fetch() == state.fetch());
                if instruction is WaitKey {
                    law_tick_and_execute_commute(state, instruction, keys, random);
                } else {
                    assert(state.tick().0.advanced() == state.advanced().tick().0);
                    law_tick_and_execute_commute(state.advanced(), instruction, keys, random);
                }
            },
        }
    }
}

/// A tick before an instruction that neither reads nor sets a timer, and a
/// tick after it, leave the same state, and the instruction ends in the
/// same way.
pub proof fn law_tick_and_execute_commute(state: MachineState, instruction: Instruction, keys: Keys, random: u8)
    requires
        !(instruction is SetDelay || instruction is SetSound || instruction is LdDelay),
    ensures
        state.tick().0.execute(instruction, keys, random).0 == state.execute(instruction, keys, random).0.tick().0,
        state.tick().0.execute(instruction, keys, random).1 == state.execute(instruction, keys, random).1,
        state.execute(instruction, keys, random).0.tick().1 == state.tick().1,
{
    let ticked = state.tick().0;
    let before = ticked.execute(instruction, keys, random).0;
    let after = state.execute(instruction, keys, random).0.tick().0;
    // One case for each group of instructions that change the same part of
    // the state; taken all at once, the cases exceed the resource limit.
    match instruction {
        Instruction::Drw(x, y, n) => {
            assert(ticked.sprite(x as int, y as int, n as int) == state.sprite(x as int, y as int, n as int));
            assert(before =~= after);
        },
        Instruction::Ret | Instruction::Jp(_) | Instruction::Call(_) | Instruction::JpV0(_) => {
            assert(before =~= after);
        },
        Instruction::SeByte(_, _)
        | Instruction::SneByte(_, _)
        | Instruction::SeReg(_, _)
        | Instruction::SneReg(_, _)
        | Instruction::Skp(_)
        | Instruction::Sknp(_) => {
            assert(before =~= after);
        },
        Instruction::LdByte(_, _)
        | Instruction::AddByte(_, _)
        | Instruction::LdReg(_, _)
        | Instruction::Or(_, _)
        | Instruction::And(_, _)
        | Instruction::Xor(_, _)
        | Instruction::Rnd(_, _) => {
            assert(before =~= after);
        },
        Instruction::AddReg(_, _)
        | Instruction::Sub(_, _)
        | Instruction::Subn(_, _)
        | Instruction::Shr(_)
        | Instruction::Shl(_) => {
            assert(before =~= after);
        },
        Instruction::Bcd(_) | Instruction::Store(_) | Instruction::Load(_) => {
            assert(before =~= after);
        },
        _ => {
            assert(before =~= after);
        },
    }
}

/// After `count` ticks each timer has gone down by `count`, but not below
/// zero.
pub proof fn law_timers_after_ticks(state: MachineState, count: nat)
    ensures
        after_ticks(state, count).delay_timer == if state.delay_timer >= count {
            state.delay_timer - count
        } else {
            0
        },
        after_ticks(state, count).sound_timer == if state.sound_timer >= count {
            state.sound_timer - count
        } else {
            0
        },
    decreases count,
{
    if count > 0 {
        law_timers_after_ticks(state.tick().0, (count - 1) as nat);
    }
}

/// Of the ticks that follow one another, exactly one beeps for a sound
/// timer that is not zero: the tick after `earlier` others beeps exactly if
/// the sound timer was `earlier + 1` at the start. For a sound timer of 1
/// that is the first tick and no later one.
pub proof fn law_one_beep(state: MachineState, earlier: nat)
    ensures
        after_ticks(state, earlier).tick().1 <==> state.sound_timer == earlier + 1,
{
    law_timers_after_ticks(state, earlier);
}

} // verus!
