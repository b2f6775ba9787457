//! The instructions. Each function carries out one instruction, taking the
//! operands from the instruction word. The step has moved the program
//! counter on to the next instruction before it calls one of them, so only
//! the jumps, the call, the return and the skips touch the program counter.

use vstd::prelude::*;
use crate::decode::{
    address_of,
    byte_of,
    decode_byte,
    decode_nibble,
    decode_register_x,
    decode_registers,
    decode_short,
    nibble_of,
    register_x,
    register_y,
};
use crate::keypad::Keys;
use crate::machine::Chip8;
use crate::model::{Fault, MachineState, Mode, FONT_BASE, GLYPH_BYTES, MEMORY_SIZE, STACK_TOP, VF};
use crate::random::RandomSource;
use crate::screen::Point;
use crate::sprite::binary_to_buffer;

verus! {

/// (0nnn - SYS addr)
/// Jump to a machine code routine at nnn.
///
/// No such routine exists here: nothing changes.
pub fn sys_jump_to_routine(chip8: &mut Chip8, _opcode: u16)
    ensures
        final(chip8).wf() == old(chip8).wf(),
        final(chip8)@ == old(chip8)@.no_operation(),
{
}

/// (00E0 - CLS)
/// Clear the display.
pub fn cls_clear_display(chip8: &mut Chip8, _opcode: u16)
    requires
        old(chip8).wf(),
    ensures
        final(chip8).wf(),
        final(chip8)@ == old(chip8)@.cls(),
{
    chip8.clear_display();
}

/// (00EE - RET)
/// Return from a subroutine.
///
/// The program counter is set to the address at the top of the stack, then
/// 1 is subtracted from the stack pointer. With nothing on the stack the
/// machine is left as it is and a stack fault is reported.
pub fn ret_return_from_subroutine(chip8: &mut Chip8, _opcode: u16) -> (result: Result<(), Fault>)
    requires
        old(chip8).wf(),
    ensures
        final(chip8).wf(),
        match old(chip8)@.ret() {
            Ok(next) => result is Ok && final(chip8)@ == next,
            Err(fault) => result == Err::<(), Fault>(fault) && final(chip8)@ == old(chip8)@,
        },
{
    let sp = chip8.stack_pointer();
    if sp == 0 || sp > STACK_TOP {
        return Err(Fault::StackFault);
    }
    let address = chip8.stack_at(sp);
    chip8.set_pc(address);
    chip8.set_stack_pointer(sp - 1);
    Ok(())
}

/// (1nnn - JP addr)
/// Jump to location nnn.
pub fn jp_jump_to_address(chip8: &mut Chip8, opcode: u16)
    requires
        old(chip8).wf(),
    ensures
        final(chip8).wf(),
        final(chip8)@ == old(chip8)@.jp(address_of(opcode) as int),
{
    chip8.set_pc(decode_short(opcode));
}

/// (2nnn - CALL addr)
/// Call subroutine at nnn.
///
/// The stack pointer is incremented, the program counter, which stands on
/// the instruction after the call, is put on the top of the stack, and the
/// program counter is set to nnn. With a full stack the machine is left as
/// it is and a stack fault is reported.
pub fn call_subroutine(chip8: &mut Chip8, opcode: u16) -> (result: Result<(), Fault>)
    requires
        old(chip8).wf(),
    ensures
        final(chip8).wf(),
        match old(chip8)@.call(address_of(opcode) as int) {
            Ok(next) => result is Ok && final(chip8)@ == next,
            Err(fault) => result == Err::<(), Fault>(fault) && final(chip8)@ == old(chip8)@,
        },
{
    let subroutine = decode_short(opcode);
    let sp = chip8.stack_pointer();
    if sp >= STACK_TOP {
        return Err(Fault::StackFault);
    }
    let next = chip8.pc();
    chip8.set_stack_pointer(sp + 1);
    chip8.set_stack(sp + 1, next);
    chip8.set_pc(subroutine);
    Ok(())
}

/// (3xkk - SE Vx, byte)
/// Skip next instruction if Vx = kk.
pub fn se_register_byte(chip8: &mut Chip8, opcode: u16)
    requires
        old(chip8).wf(),
        old(chip8)@.can_skip(),
    ensures
        final(chip8).wf(),
        final(chip8)@ == old(chip8)@.se_byte(register_x(opcode) as int, byte_of(opcode)),
{
    let v_x = decode_register_x(opcode);
    let kk = decode_byte(opcode);
    let x = chip8.register(v_x);
    if x == kk {
        chip8.advance();
    }
}

/// (4xkk - SNE Vx, byte)
/// Skip next instruction if Vx != kk.
pub fn sne_skip_not_equal(chip8: &mut Chip8, opcode: u16)
    requires
        old(chip8).wf(),
        old(chip8)@.can_skip(),
    ensures
        final(chip8).wf(),
        final(chip8)@ == old(chip8)@.sne_byte(register_x(opcode) as int, byte_of(opcode)),
{
    let v_x = decode_register_x(opcode);
    let kk = decode_byte(opcode);
    let x = chip8.register(v_x);
    if x != kk {
        chip8.advance();
    }
}

/// (5xy0 - SE Vx, Vy)
/// Skip next instruction if Vx = Vy.
pub fn se_registers(chip8: &mut Chip8, opcode: u16)
    requires
        old(chip8).wf(),
        old(chip8)@.can_skip(),
    ensures
        final(chip8).wf(),
        final(chip8)@ == old(chip8)@.se_registers(register_x(opcode) as int, register_y(opcode) as int),
{
    let (v_x, v_y) = decode_registers(opcode);
    let x = chip8.register(v_x);
    let y = chip8.register(v_y);
    if x == y {
        chip8.advance();
    }
}

/// (6xkk - LD Vx, byte)
/// Set Vx = kk.
pub fn ld_register_byte(chip8: &mut Chip8, opcode: u16)
    requires
        old(chip8).wf(),
    ensures
        final(chip8).wf(),
        final(chip8)@ == old(chip8)@.ld_byte(register_x(opcode) as int, byte_of(opcode)),
{
    let v_x = decode_register_x(opcode);
    let kk = decode_byte(opcode);
    chip8.set_register(v_x, kk);
}

/// (7xkk - ADD Vx, byte)
/// Set Vx = Vx + kk.
///
/// The sum is taken modulo 256. The flag register is not written.
pub fn add_register_byte(chip8: &mut Chip8, opcode: u16)
    requires
        old(chip8).wf(),
    ensures
        final(chip8).wf(),
        final(chip8)@ == old(chip8)@.add_byte(register_x(opcode) as int, byte_of(opcode)),
{
    let v_x = decode_register_x(opcode);
    let kk = decode_byte(opcode);
    let value = chip8.register(v_x);
    chip8.set_register(v_x, value.wrapping_add(kk));
}

/// (8xy0 - LD Vx, Vy)
/// Set Vx = Vy.
pub fn ld_registers(chip8: &mut Chip8, opcode: u16)
    requires
        old(chip8).wf(),
    ensures
        final(chip8).wf(),
        final(chip8)@ == old(chip8)@.ld_registers(register_x(opcode) as int, register_y(opcode) as int),
{
    let (v_x, v_y) = decode_registers(opcode);
    let y = chip8.register(v_y);
    chip8.set_register(v_x, y);
}

/// (8xy1 - OR Vx, Vy)
/// Set Vx = Vx OR Vy.
pub fn or_registers(chip8: &mut Chip8, opcode: u16)
    requires
        old(chip8).wf(),
    ensures
        final(chip8).wf(),
        final(chip8)@ == old(chip8)@.or_registers(register_x(opcode) as int, register_y(opcode) as int),
{
    let (v_x, v_y) = decode_registers(opcode);
    let x = chip8.register(v_x);
    let y = chip8.register(v_y);
    chip8.set_register(v_x, x | y);
}

/// (8xy2 - AND Vx, Vy)
/// Set Vx = Vx AND Vy.
pub fn and_registers(chip8: &mut Chip8, opcode: u16)
    requires
        old(chip8).wf(),
    ensures
        final(chip8).wf(),
        final(chip8)@ == old(chip8)@.and_registers(register_x(opcode) as int, register_y(opcode) as int),
{
    let (v_x, v_y) = decode_registers(opcode);
    let x = chip8.register(v_x);
    let y = chip8.register(v_y);
    chip8.set_register(v_x, x & y);
}

/// (8xy3 - XOR Vx, Vy)
/// Set Vx = Vx XOR Vy.
pub fn xor_registers(chip8: &mut Chip8, opcode: u16)
    requires
        old(chip8).wf(),
    ensures
        final(chip8).wf(),
        final(chip8)@ == old(chip8)@.xor_registers(register_x(opcode) as int, register_y(opcode) as int),
{
    let (v_x, v_y) = decode_registers(opcode);
    let x = chip8.register(v_x);
    let y = chip8.register(v_y);
    chip8.set_register(v_x, x ^ y);
}

/// (8xy4 - ADD Vx, Vy)
/// Set Vx = Vx + Vy, set VF = carry.
///
/// Only the lowest 8 bits of the sum are kept in Vx. VF is set to 1 if the
/// sum is greater than 255, otherwise to 0; it is written last.
pub fn add_registers(chip8: &mut Chip8, opcode: u16)
    requires
        old(chip8).wf(),
    ensures
        final(chip8).wf(),
        final(chip8)@ == old(chip8)@.add_registers(register_x(opcode) as int, register_y(opcode) as int),
{
    let (v_x, v_y) = decode_registers(opcode);
    let x = chip8.register(v_x);
    let y = chip8.register(v_y);
    let sum = x.wrapping_add(y);
    let overflow = sum < x;
    chip8.set_register(v_x, sum);
    chip8.set_register(VF, if overflow { 1 } else { 0 });
}

/// (8xy5 - SUB Vx, Vy)
/// Set Vx = Vx - Vy, set VF = NOT borrow.
///
/// The difference is taken modulo 256. VF is set to 1 if Vx >= Vy,
/// otherwise to 0; it is written last.
pub fn sub_registers(chip8: &mut Chip8, opcode: u16)
    requires
        old(chip8).wf(),
    ensures
        final(chip8).wf(),
        final(chip8)@ == old(chip8)@.sub_registers(register_x(opcode) as int, register_y(opcode) as int),
{
    let (v_x, v_y) = decode_registers(opcode);
    let x = chip8.register(v_x);
    let y = chip8.register(v_y);
    chip8.set_register(v_x, x.wrapping_sub(y));
    chip8.set_register(VF, if x >= y { 1 } else { 0 });
}

/// (8xy6 - SHR Vx {, Vy})
/// Set Vx = Vx SHR 1.
///
/// Vx is divided by 2. VF is set to the least significant bit that Vx had;
/// it is written last.
pub fn shr_registers(chip8: &mut Chip8, opcode: u16)
    requires
        old(chip8).wf(),
    ensures
        final(chip8).wf(),
        final(chip8)@ == old(chip8)@.shr_registers(register_x(opcode) as int),
{
    let v_x = decode_register_x(opcode);
    let x = chip8.register(v_x);
    let lsb = x & 0b00000001;
    assert(lsb == x % 2 && x >> 1 == x / 2) by (bit_vector)
        requires
            lsb == x & 0b00000001,
    ;
    chip8.set_register(v_x, x >> 1);
    chip8.set_register(VF, lsb);
}

/// (8xy7 - SUBN Vx, Vy)
/// Set Vx = Vy - Vx, set VF = NOT borrow.
///
/// The difference is taken modulo 256. VF is set to 1 if Vy >= Vx,
/// otherwise to 0; it is written last.
pub fn subn_registers(chip8: &mut Chip8, opcode: u16)
    requires
        old(chip8).wf(),
    ensures
        final(chip8).wf(),
        final(chip8)@ == old(chip8)@.subn_registers(register_x(opcode) as int, register_y(opcode) as int),
{
    let (v_x, v_y) = decode_registers(opcode);
    let x = chip8.register(v_x);
    let y = chip8.register(v_y);
    chip8.set_register(v_x, y.wrapping_sub(x));
    chip8.set_register(VF, if y >= x { 1 } else { 0 });
}

/// (8xyE - SHL Vx {, Vy})
/// Set Vx = Vx SHL 1.
///
/// Vx is multiplied by 2 modulo 256. VF is set to the most significant bit
/// that Vx had; it is written last.
pub fn shl_registers(chip8: &mut Chip8, opcode: u16)
    requires
        old(chip8).wf(),
    ensures
        final(chip8).wf(),
        final(chip8)@ == old(chip8)@.shl_registers(register_x(opcode) as int),
{
    let v_x = decode_register_x(opcode);
    let x = chip8.register(v_x);
    let msb = x >> 7;
    let doubled = x << 1;
    assert(msb == (if x >= 128 { 1u8 } else { 0u8 }) && doubled == (x * 2) % 256) by (bit_vector)
        requires
            msb == x >> 7,
            doubled == x << 1,
    ;
    chip8.set_register(v_x, doubled);
    chip8.set_register(VF, msb);
}

/// (9xy0 - SNE Vx, Vy)
/// Skip next instruction if Vx != Vy.
pub fn sne_registers(chip8: &mut Chip8, opcode: u16)
    requires
        old(chip8).wf(),
        old(chip8)@.can_skip(),
    ensures
        final(chip8).wf(),
        final(chip8)@ == old(chip8)@.sne_registers(register_x(opcode) as int, register_y(opcode) as int),
{
    let (v_x, v_y) = decode_registers(opcode);
    let x = chip8.register(v_x);
    let y = chip8.register(v_y);
    if x != y {
        chip8.advance();
    }
}

/// (Annn - LD I, addr)
/// Set I = nnn.
pub fn ld_i_byte(chip8: &mut Chip8, opcode: u16)
    requires
        old(chip8).wf(),
    ensures
        final(chip8).wf(),
        final(chip8)@ == old(chip8)@.ld_i(address_of(opcode) as int),
{
    chip8.set_index(decode_short(opcode));
}

/// (Bnnn - JP V0, addr)
/// Jump to location nnn + V0.
pub fn jp_bnnn(chip8: &mut Chip8, opcode: u16)
    requires
        old(chip8).wf(),
    ensures
        final(chip8).wf(),
        final(chip8)@ == old(chip8)@.jp_v0(address_of(opcode) as int),
{
    let nnn = decode_short(opcode);
    let v0 = chip8.register(0) as u16;
    chip8.set_pc(nnn + v0);
}

/// (Cxkk - RND Vx, byte)
/// Set Vx = random byte AND kk, with the byte given.
pub fn rnd_with_byte(chip8: &mut Chip8, opcode: u16, random: u8)
    requires
        old(chip8).wf(),
    ensures
        final(chip8).wf(),
        final(chip8)@ == old(chip8)@.rnd(register_x(opcode) as int, byte_of(opcode), random),
{
    let x = decode_register_x(opcode);
    let kk = decode_byte(opcode);
    chip8.set_register(x, random & kk);
}

/// (Cxkk - RND Vx, byte)
/// Set Vx = random byte AND kk.
///
/// The byte is asked of `rng`; whatever it is, it is ANDed with kk and the
/// result is stored in Vx.
pub fn rnd<R: RandomSource>(chip8: &mut Chip8, opcode: u16, rng: &mut R)
    requires
        old(chip8).wf(),
    ensures
        final(chip8).wf(),
        exists|random: u8|
            final(chip8)@ == #[trigger] old(chip8)@.rnd(register_x(opcode) as int, byte_of(opcode), random),
{
    let random = rng.next_byte();
    rnd_with_byte(chip8, opcode, random);
}

/// (Dxyn - DRW Vx, Vy, n)
/// Display n-byte sprite starting at memory location I at (Vx, Vy), set
/// VF = collision.
///
/// The n bytes from the address in I on are the rows of a sprite, eight
/// pixels each, the most significant bit leftmost. The sprite is XORed onto
/// the display with its top left pixel at column Vx mod 64 and row Vy mod
/// 32; what runs past the right or bottom edge continues at the opposite
/// edge. VF is set to 1 if this turns a lit pixel off, otherwise to 0. If
/// the n bytes do not all lie in memory the machine is left as it is and a
/// memory fault is reported.
pub fn drw_draw_sprite(chip8: &mut Chip8, opcode: u16) -> (result: Result<(), Fault>)
    requires
        old(chip8).wf(),
    ensures
        final(chip8).wf(),
        match old(chip8)@.draw(register_x(opcode) as int, register_y(opcode) as int, nibble_of(opcode) as int) {
            Ok(next) => result is Ok && final(chip8)@ == next,
            Err(fault) => result == Err::<(), Fault>(fault) && final(chip8)@ == old(chip8)@,
        },
{
    let (v_x, v_y) = decode_registers(opcode);
    let n = decode_nibble(opcode);
    let x = chip8.register(v_x) as usize;
    let y = chip8.register(v_y) as usize;
    let start = chip8.index();
    if start as usize + n as usize > MEMORY_SIZE {
        return Err(Fault::MemoryFault);
    }
    let read = chip8.read_memory(start, n);
    let sprite = binary_to_buffer(read);
    let collision = chip8.blit_display(&sprite, Point::new(x, y));
    chip8.set_register(VF, if collision { 1 } else { 0 });
    Ok(())
}

/// (Ex9E - SKP Vx)
/// Skip next instruction if key with the value of Vx is pressed.
///
/// A value of Vx above 15 names no key, and no key is never pressed.
pub fn skp_skip_pressed(chip8: &mut Chip8, opcode: u16, keys: &Keys)
    requires
        old(chip8).wf(),
        old(chip8)@.can_skip(),
    ensures
        final(chip8).wf(),
        final(chip8)@ == old(chip8)@.skp(register_x(opcode) as int, *keys),
{
    let v_x = decode_register_x(opcode);
    let key = chip8.register(v_x);
    if keys.is_held(key) {
        chip8.advance();
    }
}

/// (ExA1 - SKNP Vx)
/// Skip next instruction if key with the value of Vx is not pressed.
pub fn sknp_skip_not_pressed(chip8: &mut Chip8, opcode: u16, keys: &Keys)
    requires
        old(chip8).wf(),
        old(chip8)@.can_skip(),
    ensures
        final(chip8).wf(),
        final(chip8)@ == old(chip8)@.sknp(register_x(opcode) as int, *keys),
{
    let v_x = decode_register_x(opcode);
    let key = chip8.register(v_x);
    if !keys.is_held(key) {
        chip8.advance();
    }
}

/// (Fx07 - LD Vx, DT)
/// Set Vx = delay timer value.
pub fn ld_get_delay_timer(chip8: &mut Chip8, opcode: u16)
    requires
        old(chip8).wf(),
    ensures
        final(chip8).wf(),
        final(chip8)@ == old(chip8)@.ld_delay(register_x(opcode) as int),
{
    let v_x = decode_register_x(opcode);
    let value = chip8.delay_timer();
    chip8.set_register(v_x, value);
}

/// (Fx0A - LD Vx, K)
/// Wait for a key press, store the value of the key in Vx.
///
/// The machine starts to wait; the steps that follow look for a key.
pub fn ld_wait_for_key(chip8: &mut Chip8, opcode: u16)
    requires
        old(chip8).wf(),
    ensures
        final(chip8).wf(),
        final(chip8)@ == old(chip8)@.wait_key(register_x(opcode)),
{
    let v_x = decode_register_x(opcode);
    chip8.set_mode(Mode::AwaitingKey(v_x));
}

/// (Fx15 - LD DT, Vx)
/// Set delay timer = Vx.
pub fn ld_set_delay_timer(chip8: &mut Chip8, opcode: u16)
    requires
        old(chip8).wf(),
    ensures
        final(chip8).wf(),
        final(chip8)@ == old(chip8)@.set_delay(register_x(opcode) as int),
{
    let v_x = decode_register_x(opcode);
    let value = chip8.register(v_x);
    chip8.set_delay_timer(value);
}

/// (Fx18 - LD ST, Vx)
/// Set sound timer = Vx.
pub fn ld_set_sound_timer(chip8: &mut Chip8, opcode: u16)
    requires
        old(chip8).wf(),
    ensures
        final(chip8).wf(),
        final(chip8)@ == old(chip8)@.set_sound(register_x(opcode) as int),
{
    let v_x = decode_register_x(opcode);
    let value = chip8.register(v_x);
    chip8.set_sound_timer(value);
}

/// (Fx1E - ADD I, Vx)
/// Set I = I + Vx.
///
/// The sum is taken modulo 4096.
pub fn add_to_i(chip8: &mut Chip8, opcode: u16)
    requires
        old(chip8).wf(),
    ensures
        final(chip8).wf(),
        final(chip8)@ == old(chip8)@.add_i(register_x(opcode) as int),
{
    let v_x = decode_register_x(opcode);
    let value = chip8.register(v_x) as u16;
    let sum = chip8.index() + value;
    chip8.set_index(sum);
}

/// (Fx29 - LD F, Vx)
/// Set I = location of sprite for digit Vx.
///
/// The digit is the low nibble of Vx.
pub fn ld_i_to_sprite(chip8: &mut Chip8, opcode: u16)
    requires
        old(chip8).wf(),
    ensures
        final(chip8).wf(),
        final(chip8)@ == old(chip8)@.ld_font(register_x(opcode) as int),
{
    let v_x = decode_register_x(opcode);
    let digit = (chip8.register(v_x) % 16) as u16;
    chip8.set_index(FONT_BASE + digit * GLYPH_BYTES);
}

/// (Fx33 - LD B, Vx)
/// Store BCD representation of Vx in memory locations I, I+1, and I+2.
///
/// The hundreds digit of Vx goes to the address in I, the tens digit to
/// I+1 and the ones digit to I+2. If these do not all lie in memory the
/// machine is left as it is and a memory fault is reported.
pub fn ld_bcd(chip8: &mut Chip8, opcode: u16) -> (result: Result<(), Fault>)
    requires
        old(chip8).wf(),
    ensures
        final(chip8).wf(),
        match old(chip8)@.bcd(register_x(opcode) as int) {
            Ok(next) => result is Ok && final(chip8)@ == next,
            Err(fault) => result == Err::<(), Fault>(fault) && final(chip8)@ == old(chip8)@,
        },
{
    let v_x = decode_register_x(opcode);
    let x = chip8.register(v_x);
    let i = chip8.index();
    if i as usize + 2 >= MEMORY_SIZE {
        return Err(Fault::MemoryFault);
    }
    let hundreds = x / 100;
    let tens = x / 10 % 10;
    let ones = x % 10;
    chip8.set_memory(i, hundreds);
    chip8.set_memory(i + 1, tens);
    chip8.set_memory(i + 2, ones);
    Ok(())
}

/// (Fx55 - LD [I], Vx)
/// Store registers V0 through Vx in memory starting at location I.
///
/// I keeps its value. If the locations do not all lie in memory the
/// machine is left as it is and a memory fault is reported.
pub fn ld_store_registers(chip8: &mut Chip8, opcode: u16) -> (result: Result<(), Fault>)
    requires
        old(chip8).wf(),
    ensures
        final(chip8).wf(),
        match old(chip8)@.store(register_x(opcode) as int) {
            Ok(next) => result is Ok && final(chip8)@ == next,
            Err(fault) => result == Err::<(), Fault>(fault) && final(chip8)@ == old(chip8)@,
        },
{
    let v_x = decode_register_x(opcode);
    let i = chip8.index();
    if i as usize + v_x as usize >= MEMORY_SIZE {
        return Err(Fault::MemoryFault);
    }
    let mut register: u8 = 0;
    while register <= v_x
        invariant
            register <= v_x + 1,
            v_x < 16,
            i == old(chip8)@.index,
            i + v_x < MEMORY_SIZE,
            chip8.wf(),
            old(chip8).wf(),
            chip8@ == (MachineState { memory: chip8@.memory, ..old(chip8)@ }),
            forall|a: int|
                0 <= a < MEMORY_SIZE ==> chip8@.memory[a] == if i <= a < i + register {
                    old(chip8)@.registers[a - i]
                } else {
                    old(chip8)@.memory[a]
                },
        decreases v_x + 1 - register,
    {
        let value = chip8.register(register);
        chip8.set_memory(i + register as u16, value);
        register += 1;
    }
    assert(chip8@ =~= old(chip8)@.store(v_x as int)->Ok_0);
    Ok(())
}

/// (Fx65 - LD Vx, [I])
/// Read registers V0 through Vx from memory starting at location I.
///
/// I keeps its value. If the locations do not all lie in memory the
/// machine is left as it is and a memory fault is reported.
pub fn ld_read_registers(chip8: &mut Chip8, opcode: u16) -> (result: Result<(), Fault>)
    requires
        old(chip8).wf(),
    ensures
        final(chip8).wf(),
        match old(chip8)@.load_registers(register_x(opcode) as int) {
            Ok(next) => result is Ok && final(chip8)@ == next,
            Err(fault) => result == Err::<(), Fault>(fault) && final(chip8)@ == old(chip8)@,
        },
{
    let v_x = decode_register_x(opcode);
    let i = chip8.index();
    if i as usize + v_x as usize >= MEMORY_SIZE {
        return Err(Fault::MemoryFault);
    }
    let mut register: u8 = 0;
    while register <= v_x
        invariant
            register <= v_x + 1,
            v_x < 16,
            i == old(chip8)@.index,
            i + v_x < MEMORY_SIZE,
            chip8.wf(),
            old(chip8).wf(),
            chip8@ == (MachineState { registers: chip8@.registers, ..old(chip8)@ }),
            forall|r: int|
                0 <= r < 16 ==> chip8@.registers[r] == if r < register {
                    old(chip8)@.memory[i + r]
                } else {
                    old(chip8)@.registers[r]
                },
        decreases v_x + 1 - register,
    {
        let value = chip8.memory_at(i + register as u16);
        chip8.set_register(register, value);
        register += 1;
    }
    assert(chip8@ =~= old(chip8)@.load_registers(v_x as int)->Ok_0);
    Ok(())
}

} // verus!
