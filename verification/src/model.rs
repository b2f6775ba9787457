//! The machine as a mathematical value, and what each instruction, a step
//! and a timer tick do to it.
//!
//! It is the step that moves the program counter on: before it executes an
//! instruction it sets the program counter to the instruction after it. So
//! an instruction changes the program counter only where it jumps, calls,
//! returns or skips, and all the others leave it as they find it.

use vstd::prelude::*;
use crate::decode::{spec_decode, Instruction};
use crate::keypad::Keys;
use crate::screen::{collides, stamped, Stamp};
use crate::sprite::sprite_bits;

verus! {

/// The number of bytes of memory.
pub const MEMORY_SIZE: usize = 4096;

/// The address at which a program is loaded and at which execution starts.
pub const PROGRAM_START: u16 = 0x200;

/// The width of the display in pixels.
pub const DISPLAY_WIDTH: usize = 64;

/// The height of the display in pixels.
pub const DISPLAY_HEIGHT: usize = 32;

/// The number of the flag register.
pub const VF: u8 = 15;

/// The highest value that the stack pointer takes.
pub const STACK_TOP: u16 = 15;

/// The address of the glyph for the digit 0.
pub const FONT_BASE: u16 = 0;

/// The number of bytes of one glyph.
pub const GLYPH_BYTES: u16 = 5;

/// The glyphs for the digits 0 to F, five rows each.
pub const FONT: [u8; 80] = [
    0xF0, 0x90, 0x90, 0x90, 0xF0,
    0x20, 0x60, 0x20, 0x20, 0x70,
    0xF0, 0x10, 0xF0, 0x80, 0xF0,
    0xF0, 0x10, 0xF0, 0x10, 0xF0,
    0x90, 0x90, 0xF0, 0x10, 0x10,
    0xF0, 0x80, 0xF0, 0x10, 0xF0,
    0xF0, 0x80, 0xF0, 0x90, 0xF0,
    0xF0, 0x10, 0x20, 0x40, 0x40,
    0xF0, 0x90, 0xF0, 0x90, 0xF0,
    0xF0, 0x90, 0xF0, 0x10, 0xF0,
    0xF0, 0x90, 0xF0, 0x90, 0x90,
    0xE0, 0x90, 0xE0, 0x90, 0xE0,
    0xF0, 0x80, 0x80, 0x80, 0xF0,
    0xE0, 0x90, 0x90, 0x90, 0xE0,
    0xF0, 0x80, 0xF0, 0x80, 0xF0,
    0xF0, 0x80, 0xF0, 0x80, 0x80,
];

/// Whether the machine executes instructions or waits for a key.
#[derive(Clone, Copy, Debug, PartialEq, Eq)]
pub enum Mode {
    Running,
    /// A wait-for-key instruction is pending; the key goes to this register.
    AwaitingKey(u8),
}

/// Why the machine cannot go on.
#[derive(Clone, Copy, Debug, PartialEq, Eq)]
pub enum Fault {
    /// A call with a full stack, or a return with an empty one.
    StackFault,
    /// An access outside memory.
    MemoryFault,
}

/// How a step ended.
#[derive(Clone, Copy, Debug, PartialEq, Eq)]
pub enum Outcome {
    /// The step was carried out.
    Completed,
    /// The word at the program counter names no instruction; it was skipped.
    UnknownOpcode(u16),
    /// The step could not be carried out; the machine is unchanged.
    Fault(Fault),
}

/// A program image does not fit into memory above `PROGRAM_START`.
#[derive(Clone, Copy, Debug, PartialEq, Eq)]
pub struct LoadError {
    /// The length of the image that was refused.
    pub length: usize,
}

/// The state of a machine.
#[verifier::ext_equal]
pub struct MachineState {
    /// The program counter.
    pub pc: int,
    /// The index register `I`.
    pub index: int,
    /// The registers `V0` to `VF`.
    pub registers: Seq<u8>,
    pub memory: Seq<u8>,
    /// The return addresses; the slots 1 to `sp` are in use.
    pub stack: Seq<u16>,
    pub sp: int,
    pub delay_timer: u8,
    pub sound_timer: u8,
    /// The pixels of the display in row-major order, `true` for a lit one.
    pub display: Seq<bool>,
    pub mode: Mode,
}

impl MachineState {
    /// The sizes are those of the machine, the index register holds twelve
    /// bits and the stack pointer stays within the stack.
    pub open spec fn valid(self) -> bool {
        &&& 0 <= self.pc <= u16::MAX
        &&& 0 <= self.index < MEMORY_SIZE
        &&& self.registers.len() == 16
        &&& self.memory.len() == MEMORY_SIZE
        &&& self.stack.len() == 16
        &&& 0 <= self.sp <= STACK_TOP
        &&& self.display.len() == DISPLAY_WIDTH * DISPLAY_HEIGHT
        &&& (self.mode matches Mode::AwaitingKey(x) ==> x < 16)
    }

    /// The machine as it is switched on: everything zero but the glyphs in
    /// low memory and the program counter at `PROGRAM_START`.
    pub open spec fn power_on() -> MachineState {
        MachineState {
            pc: PROGRAM_START as int,
            index: 0,
            registers: Seq::new(16, |x: int| 0u8),
            memory: Seq::new(
                MEMORY_SIZE as nat,
                |a: int|
                    if FONT_BASE <= a < FONT_BASE + 80 {
                        FONT@[a - FONT_BASE]
                    } else {
                        0u8
                    },
            ),
            stack: Seq::new(16, |slot: int| 0u16),
            sp: 0,
            delay_timer: 0,
            sound_timer: 0,
            display: Seq::new((DISPLAY_WIDTH * DISPLAY_HEIGHT) as nat, |cell: int| false),
            mode: Mode::Running,
        }
    }

    /// The state after a program image has been copied to `PROGRAM_START`,
    /// or the error if it does not fit.
    pub open spec fn load(self, image: Seq<u8>) -> Result<MachineState, LoadError> {
        if image.len() > MEMORY_SIZE - PROGRAM_START {
            Err(LoadError { length: image.len() as usize })
        } else {
            Ok(
                MachineState {
                    memory: Seq::new(
                        MEMORY_SIZE as nat,
                        |a: int|
                            if PROGRAM_START <= a < PROGRAM_START + image.len() {
                                image[a - PROGRAM_START]
                            } else {
                                self.memory[a]
                            },
                    ),
                    ..self
                },
            )
        }
    }

    /// Whether both bytes of the word at the program counter lie in memory.
    pub open spec fn can_fetch(self) -> bool {
        0 <= self.pc && self.pc + 1 < MEMORY_SIZE
    }

    /// Whether the program counter can move past one instruction and still
    /// be held in sixteen bits.
    pub open spec fn can_skip(self) -> bool {
        self.pc + 2 <= u16::MAX
    }

    /// The word at the program counter, high byte first.
    pub open spec fn fetch(self) -> u16 {
        (self.memory[self.pc] as int * 256 + self.memory[self.pc + 1] as int) as u16
    }

    pub open spec fn with_pc(self, pc: int) -> MachineState {
        MachineState { pc, ..self }
    }

    /// The program counter moves on by one instruction.
    pub open spec fn advanced(self) -> MachineState {
        self.with_pc(self.pc + 2)
    }

    /// The program counter moves past one instruction if `skip` holds, and
    /// stays if not.
    pub open spec fn skipping(self, skip: bool) -> MachineState {
        if skip {
            self.advanced()
        } else {
            self
        }
    }

    pub open spec fn with_register(self, x: int, value: u8) -> MachineState {
        MachineState { registers: self.registers.update(x, value), ..self }
    }

    /// The flag register becomes 1 if `set` holds and 0 if not.
    pub open spec fn with_flag(self, set: bool) -> MachineState {
        self.with_register(
            VF as int,
            if set {
                1u8
            } else {
                0u8
            },
        )
    }

    pub open spec fn with_index(self, index: int) -> MachineState {
        MachineState { index, ..self }
    }

    pub open spec fn with_memory(self, address: int, value: u8) -> MachineState {
        MachineState { memory: self.memory.update(address, value), ..self }
    }

    pub open spec fn with_sp(self, sp: int) -> MachineState {
        MachineState { sp, ..self }
    }

    pub open spec fn with_stack(self, slot: int, address: u16) -> MachineState {
        MachineState { stack: self.stack.update(slot, address), ..self }
    }

    pub open spec fn with_delay_timer(self, value: u8) -> MachineState {
        MachineState { delay_timer: value, ..self }
    }

    pub open spec fn with_sound_timer(self, value: u8) -> MachineState {
        MachineState { sound_timer: value, ..self }
    }

    pub open spec fn with_mode(self, mode: Mode) -> MachineState {
        MachineState { mode, ..self }
    }

    pub open spec fn with_display(self, display: Seq<bool>) -> MachineState {
        MachineState { display, ..self }
    }

    /// A word that names no instruction, and `0nnn`: nothing changes.
    pub open spec fn no_operation(self) -> MachineState {
        self
    }

    /// `00E0`: every pixel goes off.
    pub open spec fn cls(self) -> MachineState {
        self.with_display(Seq::new(self.display.len(), |cell: int| false))
    }

    /// `00EE`: execution continues at the address on top of the stack, which
    /// is taken off. With nothing on the stack this is a stack fault.
    pub open spec fn ret(self) -> Result<MachineState, Fault> {
        if 1 <= self.sp <= STACK_TOP {
            Ok(self.with_pc(self.stack[self.sp] as int).with_sp(self.sp - 1))
        } else {
            Err(Fault::StackFault)
        }
    }

    /// `1nnn`: execution continues at `nnn`.
    pub open spec fn jp(self, nnn: int) -> MachineState {
        self.with_pc(nnn)
    }

    /// `2nnn`: the program counter, which stands on the instruction after
    /// the call, goes on the stack and execution continues at `nnn`. With a
    /// full stack this is a stack fault.
    pub open spec fn call(self, nnn: int) -> Result<MachineState, Fault> {
        if 0 <= self.sp < STACK_TOP {
            Ok(self.with_sp(self.sp + 1).with_stack(self.sp + 1, self.pc as u16).with_pc(nnn))
        } else {
            Err(Fault::StackFault)
        }
    }

    /// `3xkk`: the next instruction is skipped if `Vx == kk`.
    pub open spec fn se_byte(self, x: int, kk: u8) -> MachineState {
        self.skipping(self.registers[x] == kk)
    }

    /// `4xkk`: the next instruction is skipped if `Vx != kk`.
    pub open spec fn sne_byte(self, x: int, kk: u8) -> MachineState {
        self.skipping(self.registers[x] != kk)
    }

    /// `5xy_`: the next instruction is skipped if `Vx == Vy`.
    pub open spec fn se_registers(self, x: int, y: int) -> MachineState {
        self.skipping(self.registers[x] == self.registers[y])
    }

    /// `6xkk`: `Vx := kk`.
    pub open spec fn ld_byte(self, x: int, kk: u8) -> MachineState {
        self.with_register(x, kk)
    }

    /// `7xkk`: `Vx := (Vx + kk) mod 256`; the flag register is not written.
    pub open spec fn add_byte(self, x: int, kk: u8) -> MachineState {
        self.with_register(x, ((self.registers[x] + kk) % 256) as u8)
    }

    /// `8xy0`: `Vx := Vy`.
    pub open spec fn ld_registers(self, x: int, y: int) -> MachineState {
        self.with_register(x, self.registers[y])
    }

    /// `8xy1`: `Vx := Vx | Vy`.
    pub open spec fn or_registers(self, x: int, y: int) -> MachineState {
        self.with_register(x, self.registers[x] | self.registers[y])
    }

    /// `8xy2`: `Vx := Vx & Vy`.
    pub open spec fn and_registers(self, x: int, y: int) -> MachineState {
        self.with_register(x, self.registers[x] & self.registers[y])
    }

    /// `8xy3`: `Vx := Vx ^ Vy`.
    pub open spec fn xor_registers(self, x: int, y: int) -> MachineState {
        self.with_register(x, self.registers[x] ^ self.registers[y])
    }

    /// `8xy4`: `Vx := (Vx + Vy) mod 256`, then `VF := 1` if the sum is 256
    /// or more and 0 if not.
    pub open spec fn add_registers(self, x: int, y: int) -> MachineState {
        let sum = self.registers[x] + self.registers[y];
        self.with_register(x, (sum % 256) as u8).with_flag(sum >= 256)
    }

    /// `8xy5`: `Vx := (Vx - Vy) mod 256`, then `VF := 1` if `Vx >= Vy` held
    /// and 0 if not.
    pub open spec fn sub_registers(self, x: int, y: int) -> MachineState {
        let a = self.registers[x];
        let b = self.registers[y];
        self.with_register(x, ((a - b) % 256) as u8).with_flag(a >= b)
    }

    /// `8xy6`: `Vx := Vx / 2`, then `VF :=` the lowest bit that `Vx` had.
    pub open spec fn shr_registers(self, x: int) -> MachineState {
        let a = self.registers[x];
        self.with_register(x, a / 2).with_flag(a % 2 == 1)
    }

    /// `8xy7`: `Vx := (Vy - Vx) mod 256`, then `VF := 1` if `Vy >= Vx` held
    /// and 0 if not.
    pub open spec fn subn_registers(self, x: int, y: int) -> MachineState {
        let a = self.registers[x];
        let b = self.registers[y];
        self.with_register(x, ((b - a) % 256) as u8).with_flag(b >= a)
    }

    /// `8xyE`: `Vx := (Vx * 2) mod 256`, then `VF :=` the highest bit that
    /// `Vx` had.
    pub open spec fn shl_registers(self, x: int) -> MachineState {
        let a = self.registers[x];
        self.with_register(x, ((a * 2) % 256) as u8).with_flag(a >= 128)
    }

    /// `9xy_`: the next instruction is skipped if `Vx != Vy`.
    pub open spec fn sne_registers(self, x: int, y: int) -> MachineState {
        self.skipping(self.registers[x] != self.registers[y])
    }

    /// `Annn`: `I := nnn`.
    pub open spec fn ld_i(self, nnn: int) -> MachineState {
        self.with_index(nnn)
    }

    /// `Bnnn`: execution continues at `nnn + V0`.
    pub open spec fn jp_v0(self, nnn: int) -> MachineState {
        self.with_pc(nnn + self.registers[0])
    }

    /// `Cxkk`: `Vx := random & kk`.
    pub open spec fn rnd(self, x: int, kk: u8, random: u8) -> MachineState {
        self.with_register(x, random & kk)
    }

    /// The sprite of `n` rows at `I`, placed at column `Vx mod 64` and row
    /// `Vy mod 32`.
    pub open spec fn sprite(self, x: int, y: int, n: int) -> Stamp {
        Stamp {
            pixels: sprite_bits(self.memory.subrange(self.index, self.index + n)),
            width: 8,
            height: n,
            x: self.registers[x] as int % (DISPLAY_WIDTH as int),
            y: self.registers[y] as int % (DISPLAY_HEIGHT as int),
        }
    }

    /// `Dxyn`: the sprite is combined with the display by exclusive or,
    /// wrapping at the edges, then `VF := 1` if a lit pixel went off and 0
    /// if not. If the sprite's rows do not all lie in memory this is a
    /// memory fault.
    pub open spec fn draw(self, x: int, y: int, n: int) -> Result<MachineState, Fault> {
        if self.index + n > MEMORY_SIZE {
            Err(Fault::MemoryFault)
        } else {
            let sprite = self.sprite(x, y, n);
            let w = DISPLAY_WIDTH as int;
            let h = DISPLAY_HEIGHT as int;
            Ok(
                self.with_display(stamped(self.display, w, h, sprite)).with_flag(
                    collides(self.display, w, h, sprite),
                ),
            )
        }
    }

    /// `Ex9E`: the next instruction is skipped if the key `Vx` is held.
    pub open spec fn skp(self, x: int, keys: Keys) -> MachineState {
        self.skipping(keys.holds(self.registers[x]))
    }

    /// `ExA1`: the next instruction is skipped if the key `Vx` is not held.
    pub open spec fn sknp(self, x: int, keys: Keys) -> MachineState {
        self.skipping(!keys.holds(self.registers[x]))
    }

    /// `Fx07`: `Vx := delay timer`.
    pub open spec fn ld_delay(self, x: int) -> MachineState {
        self.with_register(x, self.delay_timer)
    }

    /// `Fx0A`: the machine starts to wait for a key. For this instruction
    /// the step leaves the program counter on the instruction until a key
    /// has been pressed.
    pub open spec fn wait_key(self, x: u8) -> MachineState {
        self.with_mode(Mode::AwaitingKey(x))
    }

    /// What a step does to a waiting machine: if a key went down, it goes to
    /// `Vx` and the machine runs again, from the next instruction on; if
    /// none did, nothing happens.
    pub open spec fn await_key(self, x: u8, keys: Keys) -> MachineState {
        match keys.newly_pressed() {
            Some(key) => self.with_register(x as int, key).with_mode(Mode::Running).advanced(),
            None => self,
        }
    }

    /// `Fx15`: `delay timer := Vx`.
    pub open spec fn set_delay(self, x: int) -> MachineState {
        self.with_delay_timer(self.registers[x])
    }

    /// `Fx18`: `sound timer := Vx`.
    pub open spec fn set_sound(self, x: int) -> MachineState {
        self.with_sound_timer(self.registers[x])
    }

    /// `Fx1E`: `I := (I + Vx) mod 4096`.
    pub open spec fn add_i(self, x: int) -> MachineState {
        self.with_index((self.index + self.registers[x]) % 4096)
    }

    /// `Fx29`: `I :=` the address of the glyph for the low nibble of `Vx`.
    pub open spec fn ld_font(self, x: int) -> MachineState {
        self.with_index(FONT_BASE + (self.registers[x] % 16) * GLYPH_BYTES)
    }

    /// `Fx33`: the hundreds, tens and ones of `Vx` go to memory at `I`,
    /// `I + 1` and `I + 2`. If these do not all lie in memory this is a
    /// memory fault.
    pub open spec fn bcd(self, x: int) -> Result<MachineState, Fault> {
        if self.index + 2 >= MEMORY_SIZE {
            Err(Fault::MemoryFault)
        } else {
            let value = self.registers[x];
            Ok(
                self.with_memory(self.index, value / 100).with_memory(self.index + 1, value / 10 % 10).with_memory(
                    self.index + 2,
                    value % 10,
                ),
            )
        }
    }

    /// `Fx55`: `V0` to `Vx` go to memory at `I` to `I + x`. If these do not
    /// all lie in memory this is a memory fault.
    pub open spec fn store(self, x: int) -> Result<MachineState, Fault> {
        if self.index + x >= MEMORY_SIZE {
            Err(Fault::MemoryFault)
        } else {
            Ok(
                MachineState {
                    memory: Seq::new(
                        self.memory.len(),
                        |a: int|
                            if self.index <= a <= self.index + x {
                                self.registers[a - self.index]
                            } else {
                                self.memory[a]
                            },
                    ),
                    ..self
                },
            )
        }
    }

    /// `Fx65`: `V0` to `Vx` are read from memory at `I` to `I + x`. If these
    /// do not all lie in memory this is a memory fault.
    pub open spec fn load_registers(self, x: int) -> Result<MachineState, Fault> {
        if self.index + x >= MEMORY_SIZE {
            Err(Fault::MemoryFault)
        } else {
            Ok(
                MachineState {
                    registers: Seq::new(
                        self.registers.len(),
                        |r: int|
                            if 0 <= r <= x {
                                self.memory[self.index + r]
                            } else {
                                self.registers[r]
                            },
                    ),
                    ..self
                },
            )
        }
    }

    /// The state and the outcome that an instruction which may fault leaves:
    /// on a fault the instruction changes nothing.
    pub open spec fn settle(self, result: Result<MachineState, Fault>) -> (MachineState, Outcome) {
        match result {
            Ok(next) => (next, Outcome::Completed),
            Err(fault) => (self, Outcome::Fault(fault)),
        }
    }

    /// What `instruction` does to a running machine whose program counter
    /// stands on the instruction after it, given the keys and the byte that
    /// the random source hands out.
    pub open spec fn execute(self, instruction: Instruction, keys: Keys, random: u8) -> (MachineState, Outcome) {
        match instruction {
            Instruction::Cls => (self.cls(), Outcome::Completed),
            Instruction::Ret => self.settle(self.ret()),
            Instruction::Jp(nnn) => (self.jp(nnn as int), Outcome::Completed),
            Instruction::Call(nnn) => self.settle(self.call(nnn as int)),
            Instruction::SeByte(x, kk) => (self.se_byte(x as int, kk), Outcome::Completed),
            Instruction::SneByte(x, kk) => (self.sne_byte(x as int, kk), Outcome::Completed),
            Instruction::SeReg(x, y) => (self.se_registers(x as int, y as int), Outcome::Completed),
            Instruction::LdByte(x, kk) => (self.ld_byte(x as int, kk), Outcome::Completed),
            Instruction::AddByte(x, kk) => (self.add_byte(x as int, kk), Outcome::Completed),
            Instruction::LdReg(x, y) => (self.ld_registers(x as int, y as int), Outcome::Completed),
            Instruction::Or(x, y) => (self.or_registers(x as int, y as int), Outcome::Completed),
            Instruction::And(x, y) => (self.and_registers(x as int, y as int), Outcome::Completed),
            Instruction::Xor(x, y) => (self.xor_registers(x as int, y as int), Outcome::Completed),
            Instruction::AddReg(x, y) => (self.add_registers(x as int, y as int), Outcome::Completed),
            Instruction::Sub(x, y) => (self.sub_registers(x as int, y as int), Outcome::Completed),
            Instruction::Shr(x) => (self.shr_registers(x as int), Outcome::Completed),
            Instruction::Subn(x, y) => (self.subn_registers(x as int, y as int), Outcome::Completed),
            Instruction::Shl(x) => (self.shl_registers(x as int), Outcome::Completed),
            Instruction::SneReg(x, y) => (self.sne_registers(x as int, y as int), Outcome::Completed),
            Instruction::LdI(nnn) => (self.ld_i(nnn as int), Outcome::Completed),
            Instruction::JpV0(nnn) => (self.jp_v0(nnn as int), Outcome::Completed),
            Instruction::Rnd(x, kk) => (self.rnd(x as int, kk, random), Outcome::Completed),
            Instruction::Drw(x, y, n) => self.settle(self.draw(x as int, y as int, n as int)),
            Instruction::Skp(x) => (self.skp(x as int, keys), Outcome::Completed),
            Instruction::Sknp(x) => (self.sknp(x as int, keys), Outcome::Completed),
            Instruction::LdDelay(x) => (self.ld_delay(x as int), Outcome::Completed),
            Instruction::WaitKey(x) => (self.wait_key(x), Outcome::Completed),
            Instruction::SetDelay(x) => (self.set_delay(x as int), Outcome::Completed),
            Instruction::SetSound(x) => (self.set_sound(x as int), Outcome::Completed),
            Instruction::AddI(x) => (self.add_i(x as int), Outcome::Completed),
            Instruction::LdFont(x) => (self.ld_font(x as int), Outcome::Completed),
            Instruction::Bcd(x) => self.settle(self.bcd(x as int)),
            Instruction::Store(x) => self.settle(self.store(x as int)),
            Instruction::Load(x) => self.settle(self.load_registers(x as int)),
            Instruction::Unknown(opcode) => (self.no_operation(), Outcome::UnknownOpcode(opcode)),
        }
    }

    /// What a step does to a running machine whose word at the program
    /// counter names `instruction`. The program counter moves on to the
    /// next instruction, then the instruction is executed. If that ends in
    /// a fault, the machine stays as it was before the step, the program
    /// counter on the faulting instruction. A wait for a key leaves the
    /// program counter in place too.
    pub open spec fn perform(self, instruction: Instruction, keys: Keys, random: u8) -> (MachineState, Outcome) {
        if instruction is WaitKey {
            self.execute(instruction, keys, random)
        } else {
            let (next, outcome) = self.advanced().execute(instruction, keys, random);
            if outcome is Fault {
                (self, outcome)
            } else {
                (next, outcome)
            }
        }
    }

    /// One step of the machine. A program counter whose word does not lie
    /// in memory is a memory fault. A waiting machine looks for a key; a
    /// running one fetches the word at the program counter and performs the
    /// instruction that it names.
    pub open spec fn step(self, keys: Keys, random: u8) -> (MachineState, Outcome) {
        if !self.can_fetch() {
            (self, Outcome::Fault(Fault::MemoryFault))
        } else {
            match self.mode {
                Mode::AwaitingKey(x) => (self.await_key(x, keys), Outcome::Completed),
                Mode::Running => self.perform(spec_decode(self.fetch()), keys, random),
            }
        }
    }

    /// Whether a step of the machine asks the random source for a byte.
    pub open spec fn wants_random(self) -> bool {
        self.can_fetch() && self.mode is Running && spec_decode(self.fetch()) is Rnd
    }

    /// One period of the timers: each one that is not zero goes down by
    /// one. The second component tells whether the sound timer reached zero.
    pub open spec fn tick(self) -> (MachineState, bool) {
        (
            MachineState {
                delay_timer: if self.delay_timer > 0 {
                    (self.delay_timer - 1) as u8
                } else {
                    0u8
                },
                sound_timer: if self.sound_timer > 0 {
                    (self.sound_timer - 1) as u8
                } else {
                    0u8
                },
                ..self
            },
            self.sound_timer == 1,
        )
    }
}

} // verus!
