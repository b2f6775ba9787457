//! The machine: its state, the access to each part of it, loading, the
//! step and the timer tick.

use vstd::prelude::*;
use crate::decode::{decode, spec_decode, Instruction};
use crate::keypad::Keys;
use crate::ops;
use crate::random::RandomSource;
use crate::model::{
    Fault,
    LoadError,
    MachineState,
    Mode,
    Outcome,
    DISPLAY_HEIGHT,
    DISPLAY_WIDTH,
    FONT,
    FONT_BASE,
    MEMORY_SIZE,
    PROGRAM_START,
    STACK_TOP,
};
use crate::screen::{collides, stamped, Buffer, Point};

verus! {

/// A CHIP-8 machine.
pub struct Chip8 {
    pc: u16,
    i: u16,
    registers: [u8; 16],
    memory: [u8; 4096],
    display: Buffer,
    delay_timer: u8,
    sound_timer: u8,
    sp: u16,
    stack: [u16; 16],
    mode: Mode,
}

impl View for Chip8 {
    type V = MachineState;

    closed spec fn view(&self) -> MachineState {
        MachineState {
            pc: self.pc as int,
            index: self.i as int,
            registers: self.registers@,
            memory: self.memory@,
            stack: self.stack@,
            sp: self.sp as int,
            delay_timer: self.delay_timer,
            sound_timer: self.sound_timer,
            display: self.display@,
            mode: self.mode,
        }
    }
}

/// The outcome of an instruction that may fault.
fn settle(result: Result<(), Fault>) -> (outcome: Outcome)
    ensures
        outcome == match result {
            Ok(_) => Outcome::Completed,
            Err(fault) => Outcome::Fault(fault),
        },
{
    match result {
        Ok(()) => Outcome::Completed,
        Err(fault) => Outcome::Fault(fault),
    }
}

impl Chip8 {
    /// The display is a sound buffer of the machine's width and height.
    pub closed spec fn display_wf(&self) -> bool {
        &&& self.display.wf()
        &&& self.display.spec_width() == DISPLAY_WIDTH
        &&& self.display.spec_height() == DISPLAY_HEIGHT
    }

    /// The machine is in a valid state.
    pub open spec fn wf(&self) -> bool {
        self@.valid() && self.display_wf()
    }

    /// A machine that has just been switched on.
    pub fn new() -> (chip8: Chip8)
        ensures
            chip8.wf(),
            chip8@ == MachineState::power_on(),
    {
        let mut memory = [0u8;4096];
        let mut k: usize = 0;
        while k < 80
            invariant
                k <= 80,
                forall|a: int| 0 <= a < k ==> memory@[FONT_BASE + a] == FONT@[a],
                forall|a: int| 0 <= a < MEMORY_SIZE && !(FONT_BASE <= a < FONT_BASE + k) ==> memory@[a] == 0,
            decreases 80 - k,
        {
            memory[FONT_BASE as usize + k] = FONT[k];
            k += 1;
        }
        let chip8 = Chip8 {
            pc: PROGRAM_START,
            i: 0,
            registers: [0u8;16],
            memory,
            display: Buffer::new(DISPLAY_WIDTH, DISPLAY_HEIGHT, None),
            delay_timer: 0,
            sound_timer: 0,
            sp: 0,
            stack: [0u16;16],
            mode: Mode::Running,
        };
        assert(chip8@ =~= MachineState::power_on());
        chip8
    }

    /// Copies a program image into memory from `PROGRAM_START` on. An image
    /// that does not fit is refused and the machine stays as it was.
    pub fn load_rom(&mut self, image: &[u8]) -> (result: Result<(), LoadError>)
        requires
            old(self).wf(),
        ensures
            final(self).wf(),
            match old(self)@.load(image@) {
                Ok(loaded) => result is Ok && final(self)@ == loaded,
                Err(error) => result == Err::<(), LoadError>(error) && final(self)@ == old(self)@,
            },
    {
        let length = image.len();
        if length > MEMORY_SIZE - PROGRAM_START as usize {
            return Err(LoadError { length });
        }
        let mut k: usize = 0;
        while k < length
            invariant
                k <= length,
                length == image@.len(),
                length <= MEMORY_SIZE - PROGRAM_START,
                self.wf(),
                self@ == (MachineState { memory: self@.memory, ..old(self)@ }),
                forall|a: int| 0 <= a < k ==> self@.memory[PROGRAM_START + a] == image@[a],
                forall|a: int|
                    0 <= a < MEMORY_SIZE && !(PROGRAM_START <= a < PROGRAM_START + k) ==> self@.memory[a] == old(
                        self,
                    )@.memory[a],
            decreases length - k,
        {
            self.memory[PROGRAM_START as usize + k] = image[k];
            k += 1;
        }
        assert(self@ =~= old(self)@.load(image@)->Ok_0);
        Ok(())
    }

    pub fn pc(&self) -> (pc: u16)
        ensures
            pc == self@.pc,
    {
        self.pc
    }

    pub fn set_pc(&mut self, pc: u16)
        requires
            old(self).wf(),
        ensures
            final(self).wf(),
            final(self)@ == old(self)@.with_pc(pc as int),
    {
        self.pc = pc;
    }

    /// The index register `I`.
    pub fn index(&self) -> (index: u16)
        ensures
            index == self@.index,
    {
        self.i
    }

    /// Sets the index register `I` to the low twelve bits of `index`.
    pub fn set_index(&mut self, index: u16)
        requires
            old(self).wf(),
        ensures
            final(self).wf(),
            final(self)@ == old(self)@.with_index(index as int % 4096),
    {
        self.i = index % 4096;
    }

    /// The register `Vx`.
    pub fn register(&self, x: u8) -> (value: u8)
        requires
            x < 16,
        ensures
            value == self@.registers[x as int],
    {
        self.registers[x as usize]
    }

    pub fn set_register(&mut self, x: u8, value: u8)
        requires
            old(self).wf(),
            x < 16,
        ensures
            final(self).wf(),
            final(self)@ == old(self)@.with_register(x as int, value),
    {
        self.registers[x as usize] = value;
    }

    pub fn memory_at(&self, address: u16) -> (value: u8)
        requires
            address < MEMORY_SIZE,
        ensures
            value == self@.memory[address as int],
    {
        self.memory[address as usize]
    }

    pub fn set_memory(&mut self, address: u16, value: u8)
        requires
            old(self).wf(),
            address < MEMORY_SIZE,
        ensures
            final(self).wf(),
            final(self)@ == old(self)@.with_memory(address as int, value),
    {
        self.memory[address as usize] = value;
    }

    /// The `count` bytes of memory from `start` on.
    pub fn read_memory(&self, start: u16, count: u8) -> (bytes: Vec<u8>)
        requires
            start + count <= MEMORY_SIZE,
        ensures
            bytes@ == self@.memory.subrange(start as int, start + count),
    {
        let mut bytes: Vec<u8> = Vec::new();
        let mut k: usize = 0;
        while k < count as usize
            invariant
                k <= count,
                start + count <= MEMORY_SIZE,
                bytes@.len() == k,
                forall|a: int| 0 <= a < k ==> bytes@[a] == self.memory@[start + a],
            decreases count - k,
        {
            bytes.push(self.memory[start as usize + k]);
            k += 1;
        }
        assert(bytes@ =~= self@.memory.subrange(start as int, start + count));
        bytes
    }

    pub fn stack_pointer(&self) -> (sp: u16)
        ensures
            sp == self@.sp,
    {
        self.sp
    }

    pub fn set_stack_pointer(&mut self, sp: u16)
        requires
            old(self).wf(),
            sp <= STACK_TOP,
        ensures
            final(self).wf(),
            final(self)@ == old(self)@.with_sp(sp as int),
    {
        self.sp = sp;
    }

    /// The return address in `slot` of the stack.
    pub fn stack_at(&self, slot: u16) -> (address: u16)
        requires
            slot < 16,
        ensures
            address == self@.stack[slot as int],
    {
        self.stack[slot as usize]
    }

    pub fn set_stack(&mut self, slot: u16, address: u16)
        requires
            old(self).wf(),
            slot < 16,
        ensures
            final(self).wf(),
            final(self)@ == old(self)@.with_stack(slot as int, address),
    {
        self.stack[slot as usize] = address;
    }

    pub fn delay_timer(&self) -> (value: u8)
        ensures
            value == self@.delay_timer,
    {
        self.delay_timer
    }

    pub fn set_delay_timer(&mut self, value: u8)
        requires
            old(self).wf(),
        ensures
            final(self).wf(),
            final(self)@ == old(self)@.with_delay_timer(value),
    {
        self.delay_timer = value;
    }

    pub fn sound_timer(&self) -> (value: u8)
        ensures
            value == self@.sound_timer,
    {
        self.sound_timer
    }

    pub fn set_sound_timer(&mut self, value: u8)
        requires
            old(self).wf(),
        ensures
            final(self).wf(),
            final(self)@ == old(self)@.with_sound_timer(value),
    {
        self.sound_timer = value;
    }

    pub fn mode(&self) -> (mode: Mode)
        ensures
            mode == self@.mode,
    {
        self.mode
    }

    pub fn set_mode(&mut self, mode: Mode)
        requires
            old(self).wf(),
            mode matches Mode::AwaitingKey(x) ==> x < 16,
        ensures
            final(self).wf(),
            final(self)@ == old(self)@.with_mode(mode),
    {
        self.mode = mode;
    }

    /// The display, for a renderer.
    pub fn display(&self) -> (display: &Buffer)
        requires
            self.wf(),
        ensures
            display.wf(),
            display.spec_width() == DISPLAY_WIDTH,
            display.spec_height() == DISPLAY_HEIGHT,
            display@ == self@.display,
    {
        &self.display
    }

    /// Turns every pixel of the display off.
    pub fn clear_display(&mut self)
        requires
            old(self).wf(),
        ensures
            final(self).wf(),
            final(self)@ == old(self)@.with_display(Seq::new(old(self)@.display.len(), |cell: int| false)),
    {
        self.display.clear();
    }

    /// Combines `sprite` with the display by exclusive or, its top left
    /// pixel at `offset` reduced into the display, and tells whether a lit
    /// pixel went off.
    pub fn blit_display(&mut self, sprite: &Buffer, offset: Point) -> (collision: bool)
        requires
            old(self).wf(),
            sprite.wf(),
        ensures
            final(self).wf(),
            final(self)@ == old(self)@.with_display(
                stamped(
                    old(self)@.display,
                    DISPLAY_WIDTH as int,
                    DISPLAY_HEIGHT as int,
                    sprite.stamp_at(offset, DISPLAY_WIDTH as int, DISPLAY_HEIGHT as int),
                ),
            ),
            collision == collides(
                old(self)@.display,
                DISPLAY_WIDTH as int,
                DISPLAY_HEIGHT as int,
                sprite.stamp_at(offset, DISPLAY_WIDTH as int, DISPLAY_HEIGHT as int),
            ),
    {
        self.display.blit(sprite, offset)
    }

    /// Moves the program counter on by one instruction.
    pub fn advance(&mut self)
        requires
            old(self).wf(),
            old(self)@.can_skip(),
        ensures
            final(self).wf(),
            final(self)@ == old(self)@.advanced(),
    {
        self.pc += 2;
    }

    /// The instruction word at the program counter, high byte first.
    pub fn fetch(&self) -> (opcode: u16)
        requires
            self@.can_fetch(),
        ensures
            opcode == self@.fetch(),
    {
        let pc = self.pc as usize;
        let opcode_1 = self.memory[pc] as u16;
        let opcode_2 = self.memory[pc + 1] as u16;
        assert(opcode_1 << 8 | opcode_2 == opcode_1 * 256 + opcode_2) by (bit_vector)
            requires
                opcode_1 < 256,
                opcode_2 < 256,
        ;
        opcode_1 << 8 | opcode_2
    }

    /// Whether the next step asks the random source for a byte.
    pub fn wants_random(&self) -> (wanted: bool)
        ensures
            wanted == self@.wants_random(),
    {
        if self.pc as usize + 1 >= MEMORY_SIZE {
            return false;
        }
        match self.mode {
            Mode::AwaitingKey(_) => false,
            Mode::Running => match decode(self.fetch()) {
                Instruction::Rnd(_, _) => true,
                _ => false,
            },
        }
    }

    /// Carries out the instruction that `opcode` names, on a machine whose
    /// program counter stands on the instruction after it. A word that names
    /// no instruction changes nothing and is reported. An instruction that
    /// faults changes nothing either.
    pub fn execute(&mut self, opcode: u16, keys: &Keys, random: u8) -> (outcome: Outcome)
        requires
            old(self).wf(),
            spec_decode(opcode).may_skip() ==> old(self)@.can_skip(),
        ensures
            final(self).wf(),
            (final(self)@, outcome) == old(self)@.execute(spec_decode(opcode), *keys, random),
            outcome is Fault ==> final(self)@ == old(self)@,
    {
        match decode(opcode) {
            Instruction::Cls => {
                ops::cls_clear_display(self, opcode);
                Outcome::Completed
            },
            Instruction::Ret => settle(ops::ret_return_from_subroutine(self, opcode)),
            Instruction::Jp(_) => {
                ops::jp_jump_to_address(self, opcode);
                Outcome::Completed
            },
            Instruction::Call(_) => settle(ops::call_subroutine(self, opcode)),
            Instruction::SeByte(_, _) => {
                ops::se_register_byte(self, opcode);
                Outcome::Completed
            },
            Instruction::SneByte(_, _) => {
                ops::sne_skip_not_equal(self, opcode);
                Outcome::Completed
            },
            Instruction::SeReg(_, _) => {
                ops::se_registers(self, opcode);
                Outcome::Completed
            },
            Instruction::LdByte(_, _) => {
                ops::ld_register_byte(self, opcode);
                Outcome::Completed
            },
            Instruction::AddByte(_, _) => {
                ops::add_register_byte(self, opcode);
                Outcome::Completed
            },
            Instruction::LdReg(_, _) => {
                ops::ld_registers(self, opcode);
                Outcome::Completed
            },
            Instruction::Or(_, _) => {
                ops::or_registers(self, opcode);
                Outcome::Completed
            },
            Instruction::And(_, _) => {
                ops::and_registers(self, opcode);
                Outcome::Completed
            },
            Instruction::Xor(_, _) => {
                ops::xor_registers(self, opcode);
                Outcome::Completed
            },
            Instruction::AddReg(_, _) => {
                ops::add_registers(self, opcode);
                Outcome::Completed
            },
            Instruction::Sub(_, _) => {
                ops::sub_registers(self, opcode);
                Outcome::Completed
            },
            Instruction::Shr(_) => {
                ops::shr_registers(self, opcode);
                Outcome::Completed
            },
            Instruction::Subn(_, _) => {
                ops::subn_registers(self, opcode);
                Outcome::Completed
            },
            Instruction::Shl(_) => {
                ops::shl_registers(self, opcode);
                Outcome::Completed
            },
            Instruction::SneReg(_, _) => {
                ops::sne_registers(self, opcode);
                Outcome::Completed
            },
            Instruction::LdI(_) => {
                ops::ld_i_byte(self, opcode);
                Outcome::Completed
            },
            Instruction::JpV0(_) => {
                ops::jp_bnnn(self, opcode);
                Outcome::Completed
            },
            Instruction::Rnd(_, _) => {
                ops::rnd_with_byte(self, opcode, random);
                Outcome::Completed
            },
            Instruction::Drw(_, _, _) => settle(ops::drw_draw_sprite(self, opcode)),
            Instruction::Skp(_) => {
                ops::skp_skip_pressed(self, opcode, keys);
                Outcome::Completed
            },
            Instruction::Sknp(_) => {
                ops::sknp_skip_not_pressed(self, opcode, keys);
                Outcome::Completed
            },
            Instruction::LdDelay(_) => {
                ops::ld_get_delay_timer(self, opcode);
                Outcome::Completed
            },
            Instruction::WaitKey(_) => {
                ops::ld_wait_for_key(self, opcode);
                Outcome::Completed
            },
            Instruction::SetDelay(_) => {
                ops::ld_set_delay_timer(self, opcode);
                Outcome::Completed
            },
            Instruction::SetSound(_) => {
                ops::ld_set_sound_timer(self, opcode);
                Outcome::Completed
            },
            Instruction::AddI(_) => {
                ops::add_to_i(self, opcode);
                Outcome::Completed
            },
            Instruction::LdFont(_) => {
                ops::ld_i_to_sprite(self, opcode);
                Outcome::Completed
            },
            Instruction::Bcd(_) => settle(ops::ld_bcd(self, opcode)),
            Instruction::Store(_) => settle(ops::ld_store_registers(self, opcode)),
            Instruction::Load(_) => settle(ops::ld_read_registers(self, opcode)),
            Instruction::Unknown(word) => Outcome::UnknownOpcode(word),
        }
    }

    /// One step of the machine, with the byte that the random source would
    /// hand out given as `random`.
    ///
    /// A program counter whose word does not lie in memory is a memory
    /// fault. A waiting machine looks for a key that went down. A running
    /// machine fetches the word at the program counter, moves the program
    /// counter on to the next instruction and carries out the instruction
    /// that the word names; a word that names none is passed over and
    /// reported. On a fault the machine stays as it was, the program counter
    /// on the faulting instruction.
    pub fn cycle_with(&mut self, keys: &Keys, random: u8) -> (outcome: Outcome)
        requires
            old(self).wf(),
        ensures
            final(self).wf(),
            (final(self)@, outcome) == old(self)@.step(*keys, random),
    {
        let pc = self.pc;
        if pc as usize + 1 >= MEMORY_SIZE {
            return Outcome::Fault(Fault::MemoryFault);
        }
        match self.mode {
            Mode::AwaitingKey(x) => {
                match keys.first_pressed() {
                    Some(key) => {
                        self.set_register(x, key);
                        self.set_mode(Mode::Running);
                        self.advance();
                    },
                    None => {},
                }
                Outcome::Completed
            },
            Mode::Running => {
                let opcode = self.fetch();
                match decode(opcode) {
                    Instruction::WaitKey(_) => self.execute(opcode, keys, random),
                    _ => {
                        self.advance();
                        let outcome = self.execute(opcode, keys, random);
                        match outcome {
                            Outcome::Fault(_) => {
                                self.set_pc(pc);
                                assert(self@ =~= old(self)@);
                            },
                            _ => {},
                        }
                        outcome
                    },
                }
            },
        }
    }

    /// One step of the machine. If the instruction is `RND`, its byte is
    /// asked of `rng`; no other step asks for one.
    pub fn cycle<R: RandomSource>(&mut self, keys: &Keys, rng: &mut R) -> (outcome: Outcome)
        requires
            old(self).wf(),
        ensures
            final(self).wf(),
            exists|random: u8| (final(self)@, outcome) == #[trigger] old(self)@.step(*keys, random),
            !old(self)@.wants_random() ==> forall|random: u8|
                (final(self)@, outcome) == #[trigger] old(self)@.step(*keys, random),
    {
        let random = if self.wants_random() {
            rng.next_byte()
        } else {
            0
        };
        self.cycle_with(keys, random)
    }

    /// One period of the timers: each one that is not zero goes down by
    /// one. Tells whether the sound timer reached zero, which is when the
    /// host sounds its beep.
    pub fn tick(&mut self) -> (beep: bool)
        requires
            old(self).wf(),
        ensures
            final(self).wf(),
            (final(self)@, beep) == old(self)@.tick(),
    {
        let beep = self.sound_timer == 1;
        if self.delay_timer > 0 {
            self.delay_timer -= 1;
        }
        if self.sound_timer > 0 {
            self.sound_timer -= 1;
        }
        beep
    }
}

} // verus!
