use chip8::keypad::Keys;
use chip8::machine::Chip8;
use chip8::model::{
    Fault, LoadError, Mode, Outcome, DISPLAY_HEIGHT, DISPLAY_WIDTH, FONT, MEMORY_SIZE,
    PROGRAM_START, VF,
};
use chip8::random::{RandomSource, ThreadRandom};
use chip8::screen::PIXEL_ON;

struct Bytes {
    bytes: Vec<u8>,
    asked: usize,
}

impl RandomSource for Bytes {
    fn next_byte(&mut self) -> u8 {
        let byte = self.bytes[self.asked % self.bytes.len()];
        self.asked += 1;
        byte
    }
}

fn loaded(program: &[u8]) -> Chip8 {
    let mut chip8 = Chip8::new();
    assert_eq!(chip8.load_rom(program), Ok(()));
    chip8
}

fn run(chip8: &mut Chip8, steps: usize) {
    let keys = Keys::new();
    for _ in 0..steps {
        assert_eq!(chip8.cycle_with(&keys, 0), Outcome::Completed);
    }
}

fn all_registers(chip8: &Chip8) -> Vec<u8> {
    (0..16u8).map(|x| chip8.register(x)).collect()
}

#[test]
fn constants() {
    assert_eq!(MEMORY_SIZE, 4096);
    assert_eq!(PROGRAM_START, 0x200);
    assert_eq!(DISPLAY_WIDTH, 64);
    assert_eq!(DISPLAY_HEIGHT, 32);
    assert_eq!(VF, 15);
}

#[test]
fn a_new_machine_is_zero_but_for_the_glyphs() {
    let chip8 = Chip8::new();
    assert_eq!(chip8.pc(), 0x200);
    assert_eq!(chip8.index(), 0);
    assert_eq!(chip8.stack_pointer(), 0);
    assert_eq!(chip8.delay_timer(), 0);
    assert_eq!(chip8.sound_timer(), 0);
    assert_eq!(chip8.mode(), Mode::Running);
    assert_eq!(all_registers(&chip8), vec![0u8; 16]);
    for slot in 0..16 {
        assert_eq!(chip8.stack_at(slot), 0);
    }
    for address in 0..4096u16 {
        let expected = if address < 80 { FONT[address as usize] } else { 0 };
        assert_eq!(chip8.memory_at(address), expected);
    }
    assert_eq!(chip8.display().width(), 64);
    assert_eq!(chip8.display().height(), 32);
    assert_eq!(chip8.display().pixels(), &vec![0u32; 64 * 32]);
}

#[test]
fn the_glyphs_are_the_usual_ones() {
    let chip8 = Chip8::new();
    assert_eq!(chip8.read_memory(0, 5), vec![0xF0, 0x90, 0x90, 0x90, 0xF0]);
    assert_eq!(chip8.read_memory(5, 5), vec![0x20, 0x60, 0x20, 0x20, 0x70]);
    assert_eq!(chip8.read_memory(0xA * 5, 5), vec![0xF0, 0x90, 0xF0, 0x90, 0x90]);
    assert_eq!(chip8.read_memory(0xF * 5, 5), vec![0xF0, 0x80, 0xF0, 0x80, 0x80]);
    assert_eq!(chip8.read_memory(80, 1), vec![0]);
    assert_eq!(chip8.read_memory(4096, 0), Vec::<u8>::new());
}

#[test]
fn load_rom_copies_the_image_to_the_program_start() {
    let mut chip8 = Chip8::new();
    assert_eq!(chip8.load_rom(&[0x12, 0x34, 0x56]), Ok(()));
    assert_eq!(chip8.read_memory(0x1FF, 5), vec![0, 0x12, 0x34, 0x56, 0]);
    assert_eq!(chip8.memory_at(0), 0xF0);
    assert_eq!(chip8.pc(), 0x200);
    assert_eq!(chip8.load_rom(&[]), Ok(()));
    assert_eq!(chip8.read_memory(0x200, 3), vec![0x12, 0x34, 0x56]);
}

#[test]
fn load_rom_takes_an_image_that_fills_memory() {
    let image: Vec<u8> = (0..3584u32).map(|k| (k % 251) as u8 + 1).collect();
    let mut chip8 = Chip8::new();
    assert_eq!(chip8.load_rom(&image), Ok(()));
    for k in 0..3584u16 {
        assert_eq!(chip8.memory_at(0x200 + k), image[k as usize]);
    }
    assert_eq!(chip8.memory_at(0x1FF), 0);
}

#[test]
fn load_rom_refuses_an_image_that_is_too_long() {
    let mut chip8 = Chip8::new();
    assert_eq!(chip8.load_rom(&[7u8; 3585]), Err(LoadError { length: 3585 }));
    assert_eq!(chip8.memory_at(0x200), 0);
    assert_eq!(chip8.memory_at(4095), 0);
    assert_eq!(chip8.load_rom(&vec![7u8; 10000]), Err(LoadError { length: 10000 }));
    assert_eq!(chip8.memory_at(0x200), 0);
}

#[test]
fn a_load_instruction_changes_one_register() {
    let mut chip8 = loaded(&[0x6A, 0x3C]);
    assert_eq!(chip8.fetch(), 0x6A3C);
    assert_eq!(chip8.cycle_with(&Keys::new(), 0), Outcome::Completed);
    let mut expected = vec![0u8; 16];
    expected[0xA] = 0x3C;
    assert_eq!(all_registers(&chip8), expected);
    assert_eq!(chip8.pc(), 0x202);
}

#[test]
fn jump_sets_the_program_counter_exactly() {
    let mut chip8 = loaded(&[0x12, 0xE4]);
    assert_eq!(chip8.cycle_with(&Keys::new(), 0), Outcome::Completed);
    assert_eq!(chip8.pc(), 0x2E4);
}

#[test]
fn jump_with_offset_adds_v0() {
    let mut chip8 = loaded(&[0x60, 0x05, 0xB3, 0x00]);
    run(&mut chip8, 2);
    assert_eq!(chip8.pc(), 0x305);
}

#[test]
fn bcd_writes_hundreds_tens_ones() {
    // LD V3, 234; LD I, 0x300; LD B, V3
    let mut chip8 = loaded(&[0x63, 234, 0xA3, 0x00, 0xF3, 0x33]);
    run(&mut chip8, 3);
    assert_eq!(chip8.read_memory(0x300, 3), vec![2, 3, 4]);
}

#[test]
fn add_with_carry_through_steps() {
    // LD V0, 200; LD V1, 100; ADD V0, V1
    let mut chip8 = loaded(&[0x60, 200, 0x61, 100, 0x80, 0x14]);
    run(&mut chip8, 3);
    assert_eq!(chip8.register(0), 44);
    assert_eq!(chip8.register(1), 100);
    assert_eq!(chip8.register(0xF), 1);
    assert_eq!(chip8.pc(), 0x206);
}

#[test]
fn call_and_return_through_steps() {
    // 0x200: CALL 0x206; 0x202: LD V1, 1; 0x206: LD V0, 9; 0x208: RET
    let mut chip8 = loaded(&[0x22, 0x06, 0x61, 0x01, 0x00, 0x00, 0x60, 0x09, 0x00, 0xEE]);
    run(&mut chip8, 1);
    assert_eq!((chip8.pc(), chip8.stack_pointer()), (0x206, 1));
    run(&mut chip8, 2);
    assert_eq!((chip8.pc(), chip8.stack_pointer()), (0x202, 0));
    run(&mut chip8, 1);
    assert_eq!((chip8.register(0), chip8.register(1)), (9, 1));
}

#[test]
fn a_loop_counts_down() {
    // LD V0, 5; 0x202: ADD V0, 0xFF; SE V0, 0; JP 0x202; LD V1, 0x77
    let mut chip8 = loaded(&[0x60, 0x05, 0x70, 0xFF, 0x30, 0x00, 0x12, 0x02, 0x61, 0x77]);
    run(&mut chip8, 1 + 5 * 3);
    assert_eq!(chip8.register(0), 0);
    assert_eq!(chip8.register(1), 0x77);
    assert_eq!(chip8.pc(), 0x20A);
}

#[test]
fn a_word_that_names_nothing_is_reported_and_passed_over() {
    let mut chip8 = loaded(&[0x81, 0x28, 0x61, 0x07]);
    assert_eq!(chip8.cycle_with(&Keys::new(), 0), Outcome::UnknownOpcode(0x8128));
    assert_eq!(chip8.pc(), 0x202);
    assert_eq!(all_registers(&chip8), vec![0u8; 16]);
    assert_eq!(chip8.cycle_with(&Keys::new(), 0), Outcome::Completed);
    assert_eq!(chip8.register(1), 7);
}

#[test]
fn an_empty_word_is_reported() {
    let mut chip8 = Chip8::new();
    assert_eq!(chip8.cycle_with(&Keys::new(), 0), Outcome::UnknownOpcode(0x0000));
    assert_eq!(chip8.pc(), 0x202);
}

#[test]
fn return_without_call_is_a_stack_fault() {
    let mut chip8 = loaded(&[0x00, 0xEE]);
    assert_eq!(chip8.cycle_with(&Keys::new(), 0), Outcome::Fault(Fault::StackFault));
    assert_eq!(chip8.pc(), 0x200);
    assert_eq!(chip8.cycle_with(&Keys::new(), 0), Outcome::Fault(Fault::StackFault));
}

#[test]
fn endless_recursion_is_a_stack_fault() {
    let mut chip8 = loaded(&[0x22, 0x00]);
    run(&mut chip8, 15);
    assert_eq!(chip8.stack_pointer(), 15);
    assert_eq!(chip8.cycle_with(&Keys::new(), 0), Outcome::Fault(Fault::StackFault));
    assert_eq!(chip8.stack_pointer(), 15);
    assert_eq!(chip8.pc(), 0x200);
}

#[test]
fn running_off_memory_is_a_memory_fault() {
    let mut chip8 = loaded(&[0x1F, 0xFF]);
    run(&mut chip8, 1);
    assert_eq!(chip8.pc(), 0xFFF);
    assert_eq!(chip8.cycle_with(&Keys::new(), 0), Outcome::Fault(Fault::MemoryFault));
    assert_eq!(chip8.pc(), 0xFFF);
    assert_eq!(chip8.cycle_with(&Keys::new(), 0), Outcome::Fault(Fault::MemoryFault));
    // The last word of memory can still be fetched.
    let mut chip8 = loaded(&[0x1F, 0xFE]);
    run(&mut chip8, 1);
    assert_eq!(chip8.cycle_with(&Keys::new(), 0), Outcome::UnknownOpcode(0));
    assert_eq!(chip8.pc(), 0x1000);
    assert_eq!(chip8.cycle_with(&Keys::new(), 0), Outcome::Fault(Fault::MemoryFault));
}

#[test]
fn instructions_that_leave_memory_are_memory_faults() {
    // LD I, 0xFFE; then BCD, draw of 3 rows, store V0..V2, load V0..V2
    for word in [[0xF0u8, 0x33], [0xD0, 0x03], [0xF2, 0x55], [0xF2, 0x65]] {
        let mut chip8 = loaded(&[0xAF, 0xFE, word[0], word[1]]);
        run(&mut chip8, 1);
        assert_eq!(chip8.cycle_with(&Keys::new(), 0), Outcome::Fault(Fault::MemoryFault));
        assert_eq!(chip8.pc(), 0x202);
        assert_eq!(chip8.read_memory(0xFFE, 2), vec![0, 0]);
    }
}

#[test]
fn draw_through_steps() {
    // LD V0, 62; LD V1, 31; LD F, V1 (no: glyph of low nibble F); DRW V0, V1, 5
    let mut chip8 = loaded(&[0x60, 62, 0x61, 31, 0xF1, 0x29, 0xD0, 0x15, 0xD0, 0x15]);
    run(&mut chip8, 3);
    assert_eq!(chip8.index(), 75);
    run(&mut chip8, 1);
    assert_eq!(chip8.register(0xF), 0);
    // Glyph F: F0 80 F0 80 80 at column 62, row 31, wrapping both ways.
    let display = chip8.display();
    let expected = [
        (62, 31), (63, 31), (0, 31), (1, 31), //
        (62, 0), //
        (62, 1), (63, 1), (0, 1), (1, 1), //
        (62, 2), //
        (62, 3),
    ];
    for y in 0..32 {
        for x in 0..64 {
            assert_eq!(display.pixel(x, y), expected.contains(&(x, y)), "pixel {} {}", x, y);
        }
    }
    assert_eq!(display.pixels().iter().filter(|p| **p == PIXEL_ON).count(), 11);
    assert_eq!(display.pixels().iter().filter(|p| **p == 0).count(), 2048 - 11);
    run(&mut chip8, 1);
    assert_eq!(chip8.register(0xF), 1);
    assert_eq!(chip8.display().pixels(), &vec![0u32; 2048]);
}

#[test]
fn clear_then_draw_through_steps() {
    // DRW V0, V0, 5; CLS; DRW V0, V0, 5
    let mut chip8 = loaded(&[0xD0, 0x05, 0x00, 0xE0, 0xD0, 0x05]);
    run(&mut chip8, 2);
    assert_eq!(chip8.display().pixels(), &vec![0u32; 2048]);
    chip8.set_register(0xF, 1);
    run(&mut chip8, 1);
    assert_eq!(chip8.register(0xF), 0);
}

#[test]
fn waiting_for_a_key() {
    // LD V3, K; LD V1, 1
    let mut chip8 = loaded(&[0xF3, 0x0A, 0x61, 0x01]);
    let mut keys = Keys::new();
    assert_eq!(chip8.cycle_with(&keys, 0), Outcome::Completed);
    assert_eq!(chip8.mode(), Mode::AwaitingKey(3));
    assert_eq!(chip8.pc(), 0x200);
    // Nothing happens while no key goes down, not even for a key that is held.
    keys.hold(4);
    for _ in 0..3 {
        assert_eq!(chip8.cycle_with(&keys, 0), Outcome::Completed);
        assert_eq!(chip8.mode(), Mode::AwaitingKey(3));
        assert_eq!(chip8.pc(), 0x200);
        assert_eq!(all_registers(&chip8), vec![0u8; 16]);
    }
    keys.press(9);
    keys.press(7);
    assert_eq!(chip8.cycle_with(&keys, 0), Outcome::Completed);
    assert_eq!(chip8.mode(), Mode::Running);
    assert_eq!(chip8.register(3), 7);
    assert_eq!(chip8.pc(), 0x202);
    assert_eq!(chip8.cycle_with(&keys, 0), Outcome::Completed);
    assert_eq!(chip8.register(1), 1);
}

#[test]
fn key_skips_through_steps() {
    // LD V0, 5; SKP V0; LD V1, 1; SKNP V0; LD V2, 2; LD V3, 3
    let program = [0x60, 0x05, 0xE0, 0x9E, 0x61, 0x01, 0xE0, 0xA1, 0x62, 0x02, 0x63, 0x03];
    let mut held = Keys::new();
    held.hold(5);
    let mut chip8 = loaded(&program);
    for _ in 0..5 {
        assert_eq!(chip8.cycle_with(&held, 0), Outcome::Completed);
    }
    assert_eq!((chip8.register(1), chip8.register(2), chip8.register(3)), (0, 2, 3));
    let mut chip8 = loaded(&program);
    for _ in 0..5 {
        assert_eq!(chip8.cycle_with(&Keys::new(), 0), Outcome::Completed);
    }
    assert_eq!((chip8.register(1), chip8.register(2), chip8.register(3)), (1, 0, 3));
}

#[test]
fn tick_counts_both_timers_down() {
    let mut chip8 = Chip8::new();
    chip8.set_delay_timer(3);
    chip8.set_sound_timer(2);
    assert!(!chip8.tick());
    assert_eq!((chip8.delay_timer(), chip8.sound_timer()), (2, 1));
    assert!(chip8.tick());
    assert_eq!((chip8.delay_timer(), chip8.sound_timer()), (1, 0));
    assert!(!chip8.tick());
    assert_eq!((chip8.delay_timer(), chip8.sound_timer()), (0, 0));
    assert!(!chip8.tick());
    assert_eq!((chip8.delay_timer(), chip8.sound_timer()), (0, 0));
    assert_eq!(chip8.pc(), 0x200);
}

#[test]
fn a_sound_timer_of_one_beeps_once() {
    let mut chip8 = Chip8::new();
    chip8.set_sound_timer(1);
    let beeps: Vec<bool> = (0..5).map(|_| chip8.tick()).collect();
    assert_eq!(beeps, vec![true, false, false, false, false]);
    assert_eq!(chip8.delay_timer(), 0);
}

#[test]
fn a_sound_timer_beeps_when_it_runs_out() {
    let mut chip8 = Chip8::new();
    chip8.set_sound_timer(255);
    chip8.set_delay_timer(1);
    let beeps: Vec<bool> = (0..300).map(|_| chip8.tick()).collect();
    for (k, beep) in beeps.iter().enumerate() {
        assert_eq!(*beep, k == 254);
    }
    assert_eq!((chip8.delay_timer(), chip8.sound_timer()), (0, 0));
}

#[test]
fn steps_do_not_count_the_timers_down() {
    // LD V0, 10; LD DT, V0; LD ST, V0; then a loop
    let mut chip8 = loaded(&[0x60, 10, 0xF0, 0x15, 0xF0, 0x18, 0x12, 0x06]);
    run(&mut chip8, 3);
    assert_eq!((chip8.delay_timer(), chip8.sound_timer()), (10, 10));
    run(&mut chip8, 100);
    assert_eq!((chip8.delay_timer(), chip8.sound_timer()), (10, 10));
    assert!(!chip8.tick());
    run(&mut chip8, 7);
    assert_eq!((chip8.delay_timer(), chip8.sound_timer()), (9, 9));
    // However many steps lie between the ticks, the tenth tick beeps.
    let mut beeps = Vec::new();
    for k in 0..12 {
        run(&mut chip8, k * 3);
        beeps.push(chip8.tick());
    }
    let mut expected = vec![false; 12];
    expected[8] = true;
    assert_eq!(beeps, expected);
}

#[test]
fn the_delay_timer_is_read_by_the_program() {
    // LD V0, 3; LD DT, V0; LD V1, DT
    let mut chip8 = loaded(&[0x60, 3, 0xF0, 0x15, 0xF1, 0x07]);
    run(&mut chip8, 2);
    chip8.tick();
    run(&mut chip8, 1);
    assert_eq!(chip8.register(1), 2);
}

#[test]
fn cycle_asks_for_a_random_byte_only_for_rnd() {
    // LD V0, 1; RND V1, 0x0F; ADD V0, V1; RND V2, 0xF0
    let mut chip8 = loaded(&[0x60, 0x01, 0xC1, 0x0F, 0x80, 0x14, 0xC2, 0xF0]);
    let mut source = Bytes { bytes: vec![0x3C, 0xA5], asked: 0 };
    let keys = Keys::new();
    assert!(!chip8.wants_random());
    assert_eq!(chip8.cycle(&keys, &mut source), Outcome::Completed);
    assert_eq!(source.asked, 0);
    assert!(chip8.wants_random());
    assert_eq!(chip8.cycle(&keys, &mut source), Outcome::Completed);
    assert_eq!(source.asked, 1);
    assert_eq!(chip8.register(1), 0x0C);
    assert_eq!(chip8.cycle(&keys, &mut source), Outcome::Completed);
    assert_eq!(source.asked, 1);
    assert_eq!(chip8.register(0), 0x0D);
    assert_eq!(chip8.cycle(&keys, &mut source), Outcome::Completed);
    assert_eq!(source.asked, 2);
    assert_eq!(chip8.register(2), 0xA0);
    assert_eq!(chip8.pc(), 0x208);
}

#[test]
fn cycle_with_the_thread_generator() {
    // RND V1, 0x03; JP 0x200
    let mut chip8 = loaded(&[0xC1, 0x03, 0x12, 0x00]);
    let mut source = ThreadRandom::new();
    let keys = Keys::new();
    let mut seen = [false; 4];
    for _ in 0..400 {
        assert_eq!(chip8.cycle(&keys, &mut source), Outcome::Completed);
        assert!(chip8.register(1) <= 3);
        seen[chip8.register(1) as usize] = true;
        assert_eq!(chip8.cycle(&keys, &mut source), Outcome::Completed);
        assert_eq!(chip8.pc(), 0x200);
    }
    assert_eq!(seen, [true; 4]);
}

#[test]
fn cycle_and_cycle_with_agree() {
    let program = [0x60, 0x07, 0xC1, 0xFF, 0x81, 0x04, 0xF1, 0x33, 0x22, 0x0C, 0x00, 0x00, 0x00, 0xEE];
    let mut one = loaded(&program);
    let mut other = loaded(&program);
    let mut source = Bytes { bytes: vec![0x99], asked: 0 };
    let keys = Keys::new();
    for _ in 0..7 {
        assert_eq!(one.cycle(&keys, &mut source), other.cycle_with(&keys, 0x99));
        assert_eq!(one.pc(), other.pc());
        assert_eq!(all_registers(&one), all_registers(&other));
    }
    assert_eq!(one.register(1), 0xA0);
}

#[test]
fn a_waiting_machine_asks_for_no_random_byte() {
    let mut chip8 = loaded(&[0xC1, 0xFF]);
    chip8.set_mode(Mode::AwaitingKey(2));
    assert!(!chip8.wants_random());
    let mut source = Bytes { bytes: vec![1], asked: 0 };
    assert_eq!(chip8.cycle(&Keys::new(), &mut source), Outcome::Completed);
    assert_eq!(source.asked, 0);
    assert_eq!(chip8.pc(), 0x200);
}

#[test]
fn setters_and_getters() {
    let mut chip8 = Chip8::new();
    chip8.set_pc(0x345);
    chip8.set_index(0xFFF);
    chip8.set_register(15, 0xAB);
    chip8.set_memory(4095, 0xCD);
    chip8.set_stack_pointer(15);
    chip8.set_stack(15, 0x1234);
    chip8.set_delay_timer(255);
    chip8.set_sound_timer(254);
    chip8.set_mode(Mode::AwaitingKey(15));
    assert_eq!(chip8.pc(), 0x345);
    assert_eq!(chip8.index(), 0xFFF);
    assert_eq!(chip8.register(15), 0xAB);
    assert_eq!(chip8.register(14), 0);
    assert_eq!(chip8.memory_at(4095), 0xCD);
    assert_eq!(chip8.memory_at(4094), 0);
    assert_eq!(chip8.stack_pointer(), 15);
    assert_eq!(chip8.stack_at(15), 0x1234);
    assert_eq!(chip8.stack_at(14), 0);
    assert_eq!(chip8.delay_timer(), 255);
    assert_eq!(chip8.sound_timer(), 254);
    assert_eq!(chip8.mode(), Mode::AwaitingKey(15));
}

#[test]
fn advance_moves_by_one_instruction() {
    let mut chip8 = Chip8::new();
    chip8.advance();
    assert_eq!(chip8.pc(), 0x202);
    chip8.set_pc(0xFFFD);
    chip8.advance();
    assert_eq!(chip8.pc(), 0xFFFF);
}

#[test]
fn set_index_keeps_twelve_bits() {
    let mut chip8 = Chip8::new();
    chip8.set_index(0x1234);
    assert_eq!(chip8.index(), 0x234);
    chip8.set_index(0xFFFF);
    assert_eq!(chip8.index(), 0xFFF);
    chip8.set_index(0x1000);
    assert_eq!(chip8.index(), 0);
    chip8.set_index(0x0FFF);
    assert_eq!(chip8.index(), 0xFFF);
}

#[test]
fn execute_carries_out_one_instruction_and_leaves_the_program_counter() {
    let keys = Keys::new();
    let mut chip8 = Chip8::new();
    assert_eq!(chip8.execute(0x6A3C, &keys, 0), Outcome::Completed);
    assert_eq!(chip8.register(0xA), 0x3C);
    assert_eq!(chip8.pc(), 0x200);
    assert_eq!(chip8.execute(0xCB0F, &keys, 0xA7), Outcome::Completed);
    assert_eq!(chip8.register(0xB), 0x07);
    assert_eq!(chip8.execute(0x8128, &keys, 0), Outcome::UnknownOpcode(0x8128));
    assert_eq!(chip8.pc(), 0x200);
    assert_eq!(chip8.execute(0x3A3C, &keys, 0), Outcome::Completed);
    assert_eq!(chip8.pc(), 0x202);
    assert_eq!(chip8.execute(0x2300, &keys, 0), Outcome::Completed);
    assert_eq!((chip8.pc(), chip8.stack_at(1)), (0x300, 0x202));
    assert_eq!(chip8.execute(0x00EE, &keys, 0), Outcome::Completed);
    assert_eq!(chip8.pc(), 0x202);
    assert_eq!(chip8.execute(0x00EE, &keys, 0), Outcome::Fault(Fault::StackFault));
    assert_eq!(chip8.pc(), 0x202);
    assert_eq!(chip8.execute(0xF30A, &keys, 0), Outcome::Completed);
    assert_eq!(chip8.mode(), Mode::AwaitingKey(3));
    assert_eq!(chip8.pc(), 0x202);
}

#[test]
fn a_fault_leaves_the_program_counter_on_the_instruction() {
    // LD I, 0xFFF; LD B, V0
    let mut chip8 = loaded(&[0xAF, 0xFF, 0xF0, 0x33]);
    run(&mut chip8, 1);
    for _ in 0..3 {
        assert_eq!(chip8.cycle_with(&Keys::new(), 0), Outcome::Fault(Fault::MemoryFault));
        assert_eq!(chip8.pc(), 0x202);
        assert_eq!(chip8.index(), 0xFFF);
    }
}

#[test]
fn display_primitives() {
    let mut chip8 = Chip8::new();
    let sprite = chip8::sprite::binary_to_buffer(vec![0xC0]);
    assert!(!chip8.blit_display(&sprite, chip8::screen::Point::new(63, 0)));
    assert!(chip8.display().pixel(63, 0));
    assert!(chip8.display().pixel(0, 0));
    assert!(chip8.blit_display(&sprite, chip8::screen::Point::new(0, 0)));
    assert!(!chip8.display().pixel(0, 0));
    assert!(chip8.display().pixel(1, 0));
    chip8.clear_display();
    assert_eq!(chip8.display().pixels(), &vec![0u32; 2048]);
}
