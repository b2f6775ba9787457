//! Instruction words: their operand fields and the instruction each one names.

use vstd::prelude::*;

verus! {

/// The highest of the four nibbles of an instruction word.
pub open spec fn family(opcode: u16) -> u16 {
    opcode / 4096
}

/// The second nibble of an instruction word: the register operand `x`.
pub open spec fn register_x(opcode: u16) -> u8 {
    (opcode / 256 % 16) as u8
}

/// The third nibble of an instruction word: the register operand `y`.
pub open spec fn register_y(opcode: u16) -> u8 {
    (opcode / 16 % 16) as u8
}

/// The low byte of an instruction word: the byte operand `kk`.
pub open spec fn byte_of(opcode: u16) -> u8 {
    (opcode % 256) as u8
}

/// The low twelve bits of an instruction word: the address operand `nnn`.
pub open spec fn address_of(opcode: u16) -> u16 {
    opcode % 4096
}

/// The lowest nibble of an instruction word: the operand `n`.
pub open spec fn nibble_of(opcode: u16) -> u8 {
    (opcode % 16) as u8
}

pub fn decode_family(opcode: u16) -> (top: u16)
    ensures
        top == family(opcode),
        top < 16,
{
    assert((opcode & 0xF000) >> 12 == opcode / 4096 && opcode / 4096 < 16) by (bit_vector);
    (opcode & 0xF000) >> 12
}

pub fn decode_register_x(opcode: u16) -> (x: u8)
    ensures
        x == register_x(opcode),
        x < 16,
{
    let v_x = (opcode & 0x0F00) >> 8;
    assert(v_x == opcode / 256 % 16 && v_x < 16) by (bit_vector)
        requires
            v_x == (opcode & 0x0F00) >> 8,
    ;
    v_x as u8
}

pub fn decode_register_y(opcode: u16) -> (y: u8)
    ensures
        y == register_y(opcode),
        y < 16,
{
    let v_y = (opcode & 0x00F0) >> 4;
    assert(v_y == opcode / 16 % 16 && v_y < 16) by (bit_vector)
        requires
            v_y == (opcode & 0x00F0) >> 4,
    ;
    v_y as u8
}

pub fn decode_registers(opcode: u16) -> (registers: (u8, u8))
    ensures
        registers.0 == register_x(opcode),
        registers.1 == register_y(opcode),
        registers.0 < 16,
        registers.1 < 16,
{
    (decode_register_x(opcode), decode_register_y(opcode))
}

pub fn decode_byte(opcode: u16) -> (kk: u8)
    ensures
        kk == byte_of(opcode),
{
    let low = opcode & 0x00FF;
    assert(low == opcode % 256 && low < 256) by (bit_vector)
        requires
            low == opcode & 0x00FF,
    ;
    low as u8
}

pub fn decode_short(opcode: u16) -> (nnn: u16)
    ensures
        nnn == address_of(opcode),
        nnn < 4096,
{
    assert(opcode & 0x0FFF == opcode % 4096) by (bit_vector);
    opcode & 0x0FFF
}

pub fn decode_nibble(opcode: u16) -> (n: u8)
    ensures
        n == nibble_of(opcode),
        n < 16,
{
    let low = opcode & 0x000F;
    assert(low == opcode % 16 && low < 16) by (bit_vector)
        requires
            low == opcode & 0x000F,
    ;
    low as u8
}

/// An instruction of the machine, with its operands: `x` and `y` name
/// registers, `kk` is a byte, `nnn` an address and `n` a count of sprite rows.
#[derive(Clone, Copy, Debug, PartialEq, Eq)]
pub enum Instruction {
    /// `00E0`: clear the display.
    Cls,
    /// `00EE`: return from a subroutine.
    Ret,
    /// `1nnn`: jump to `nnn`.
    Jp(u16),
    /// `2nnn`: call the subroutine at `nnn`.
    Call(u16),
    /// `3xkk`: skip the next instruction if `Vx == kk`.
    SeByte(u8, u8),
    /// `4xkk`: skip the next instruction if `Vx != kk`.
    SneByte(u8, u8),
    /// `5xy_`: skip the next instruction if `Vx == Vy`.
    SeReg(u8, u8),
    /// `6xkk`: `Vx := kk`.
    LdByte(u8, u8),
    /// `7xkk`: `Vx := Vx + kk`.
    AddByte(u8, u8),
    /// `8xy0`: `Vx := Vy`.
    LdReg(u8, u8),
    /// `8xy1`: `Vx := Vx | Vy`.
    Or(u8, u8),
    /// `8xy2`: `Vx := Vx & Vy`.
    And(u8, u8),
    /// `8xy3`: `Vx := Vx ^ Vy`.
    Xor(u8, u8),
    /// `8xy4`: `Vx := Vx + Vy`, `VF := carry`.
    AddReg(u8, u8),
    /// `8xy5`: `Vx := Vx - Vy`, `VF := no borrow`.
    Sub(u8, u8),
    /// `8xy6`: `Vx := Vx >> 1`, `VF := the bit shifted out`.
    Shr(u8),
    /// `8xy7`: `Vx := Vy - Vx`, `VF := no borrow`.
    Subn(u8, u8),
    /// `8xyE`: `Vx := Vx << 1`, `VF := the bit shifted out`.
    Shl(u8),
    /// `9xy_`: skip the next instruction if `Vx != Vy`.
    SneReg(u8, u8),
    /// `Annn`: `I := nnn`.
    LdI(u16),
    /// `Bnnn`: jump to `nnn + V0`.
    JpV0(u16),
    /// `Cxkk`: `Vx := random byte & kk`.
    Rnd(u8, u8),
    /// `Dxyn`: draw the `n`-row sprite at `I` at (`Vx`, `Vy`), `VF := collision`.
    Drw(u8, u8, u8),
    /// `Ex9E`: skip the next instruction if the key `Vx` is held.
    Skp(u8),
    /// `ExA1`: skip the next instruction if the key `Vx` is not held.
    Sknp(u8),
    /// `Fx07`: `Vx := delay timer`.
    LdDelay(u8),
    /// `Fx0A`: wait for a key press, then `Vx := key`.
    WaitKey(u8),
    /// `Fx15`: `delay timer := Vx`.
    SetDelay(u8),
    /// `Fx18`: `sound timer := Vx`.
    SetSound(u8),
    /// `Fx1E`: `I := I + Vx`.
    AddI(u8),
    /// `Fx29`: `I := address of the glyph for the digit Vx`.
    LdFont(u8),
    /// `Fx33`: store the decimal digits of `Vx` at `I`, `I + 1`, `I + 2`.
    Bcd(u8),
    /// `Fx55`: store `V0..=Vx` at `I`.
    Store(u8),
    /// `Fx65`: load `V0..=Vx` from `I`.
    Load(u8),
    /// Any other word.
    Unknown(u16),
}

impl Instruction {
    /// Whether the instruction is one of those that skip the instruction
    /// after them on a condition.
    pub open spec fn may_skip(self) -> bool {
        self is SeByte || self is SneByte || self is SeReg || self is SneReg || self is Skp || self is Sknp
    }
}

/// The instruction that a word names. The highest nibble selects the
/// family; the families 0, E and F are told apart by the low byte, the family
/// 8 by the lowest nibble.
pub open spec fn spec_decode(opcode: u16) -> Instruction {
    let x = register_x(opcode);
    let y = register_y(opcode);
    let kk = byte_of(opcode);
    let nnn = address_of(opcode);
    let n = nibble_of(opcode);
    let top = family(opcode);
    if top == 0x0 {
        if kk == 0xE0 {
            Instruction::Cls
        } else if kk == 0xEE {
            Instruction::Ret
        } else {
            Instruction::Unknown(opcode)
        }
    } else if top == 0x1 {
        Instruction::Jp(nnn)
    } else if top == 0x2 {
        Instruction::Call(nnn)
    } else if top == 0x3 {
        Instruction::SeByte(x, kk)
    } else if top == 0x4 {
        Instruction::SneByte(x, kk)
    } else if top == 0x5 {
        Instruction::SeReg(x, y)
    } else if top == 0x6 {
        Instruction::LdByte(x, kk)
    } else if top == 0x7 {
        Instruction::AddByte(x, kk)
    } else if top == 0x8 {
        if n == 0x0 {
            Instruction::LdReg(x, y)
        } else if n == 0x1 {
            Instruction::Or(x, y)
        } else if n == 0x2 {
            Instruction::And(x, y)
        } else if n == 0x3 {
            Instruction::Xor(x, y)
        } else if n == 0x4 {
            Instruction::AddReg(x, y)
        } else if n == 0x5 {
            Instruction::Sub(x, y)
        } else if n == 0x6 {
            Instruction::Shr(x)
        } else if n == 0x7 {
            Instruction::Subn(x, y)
        } else if n == 0xE {
            Instruction::Shl(x)
        } else {
            Instruction::Unknown(opcode)
        }
    } else if top == 0x9 {
        Instruction::SneReg(x, y)
    } else if top == 0xA {
        Instruction::LdI(nnn)
    } else if top == 0xB {
        Instruction::JpV0(nnn)
    } else if top == 0xC {
        Instruction::Rnd(x, kk)
    } else if top == 0xD {
        Instruction::Drw(x, y, n)
    } else if top == 0xE {
        if kk == 0x9E {
            Instruction::Skp(x)
        } else if kk == 0xA1 {
            Instruction::Sknp(x)
        } else {
            Instruction::Unknown(opcode)
        }
    } else {
        if kk == 0x07 {
            Instruction::LdDelay(x)
        } else if kk == 0x0A {
            Instruction::WaitKey(x)
        } else if kk == 0x15 {
            Instruction::SetDelay(x)
        } else if kk == 0x18 {
            Instruction::SetSound(x)
        } else if kk == 0x1E {
            Instruction::AddI(x)
        } else if kk == 0x29 {
            Instruction::LdFont(x)
        } else if kk == 0x33 {
            Instruction::Bcd(x)
        } else if kk == 0x55 {
            Instruction::Store(x)
        } else if kk == 0x65 {
            Instruction::Load(x)
        } else {
            Instruction::Unknown(opcode)
        }
    }
}

/// Classifies an instruction word and extracts its operands.
pub fn decode(opcode: u16) -> (instruction: Instruction)
    ensures
        instruction == spec_decode(opcode),
{
    let (x, y) = decode_registers(opcode);
    let kk = decode_byte(opcode);
    let nnn = decode_short(opcode);
    let n = decode_nibble(opcode);
    match decode_family(opcode) {
        0x0 => match kk {
            0xE0 => Instruction::Cls,
            0xEE => Instruction::Ret,
            _ => Instruction::Unknown(opcode),
        },
        0x1 => Instruction::Jp(nnn),
        0x2 => Instruction::Call(nnn),
        0x3 => Instruction::SeByte(x, kk),
        0x4 => Instruction::SneByte(x, kk),
        0x5 => Instruction::SeReg(x, y),
        0x6 => Instruction::LdByte(x, kk),
        0x7 => Instruction::AddByte(x, kk),
        0x8 => match n {
            0x0 => Instruction::LdReg(x, y),
            0x1 => Instruction::Or(x, y),
            0x2 => Instruction::And(x, y),
            0x3 => Instruction::Xor(x, y),
            0x4 => Instruction::AddReg(x, y),
            0x5 => Instruction::Sub(x, y),
            0x6 => Instruction::Shr(x),
            0x7 => Instruction::Subn(x, y),
            0xE => Instruction::Shl(x),
            _ => Instruction::Unknown(opcode),
        },
        0x9 => Instruction::SneReg(x, y),
        0xA => Instruction::LdI(nnn),
        0xB => Instruction::JpV0(nnn),
        0xC => Instruction::Rnd(x, kk),
        0xD => Instruction::Drw(x, y, n),
        0xE => match kk {
            0x9E => Instruction::Skp(x),
            0xA1 => Instruction::Sknp(x),
            _ => Instruction::Unknown(opcode),
        },
        _ => match kk {
            0x07 => Instruction::LdDelay(x),
            0x0A => Instruction::WaitKey(x),
            0x15 => Instruction::SetDelay(x),
            0x18 => Instruction::SetSound(x),
            0x1E => Instruction::AddI(x),
            0x29 => Instruction::LdFont(x),
            0x33 => Instruction::Bcd(x),
            0x55 => Instruction::Store(x),
            0x65 => Instruction::Load(x),
            _ => Instruction::Unknown(opcode),
        },
    }
}

} // verus!
