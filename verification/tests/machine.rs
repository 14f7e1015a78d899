use chip8::chip8::Chip8;
use chip8::error::Chip8Error;
use chip8::state::{Input, Progress};

fn machine_with(rom: &[u8]) -> Chip8 {
    let mut machine = Chip8::new();
    assert_eq!(machine.load_rom(&rom.to_vec()), Ok(()));
    machine
}

fn cycles(machine: &mut Chip8, count: usize) {
    for _ in 0..count {
        assert_eq!(machine.execute_instruction(&Input::idle(0)), Ok(Progress::Executed));
    }
}

fn registers(machine: &Chip8) -> Vec<u8> {
    (0..16u8).map(|x| machine.cpu().reg(x)).collect()
}

fn lit_count(machine: &Chip8) -> usize {
    machine.display().pixels().iter().filter(|p| **p).count()
}

#[test]
fn new_machine_is_at_power_on() {
    let machine = Chip8::new();
    assert_eq!(machine.cpu().pc(), 0x200);
    assert_eq!(machine.cpu().sp(), 0);
    assert_eq!(registers(&machine), vec![0; 16]);
    assert_eq!(machine.memory().read(0), Ok(0xF0));
    assert_eq!(machine.memory().read(0x200), Ok(0));
    assert_eq!(lit_count(&machine), 0);
    assert!(!machine.sound_on());
}

#[test]
fn load_then_add_program() {
    let mut machine = machine_with(&[0x60, 0x0A, 0x61, 0x05, 0x80, 0x14]);
    cycles(&mut machine, 3);
    assert_eq!(machine.cpu().reg(0), 15);
    assert_eq!(machine.cpu().reg(1), 5);
    assert_eq!(machine.cpu().reg(0xF), 0);
    assert_eq!(machine.cpu().pc(), 0x206);
}

#[test]
fn draw_glyph_zero_from_the_font() {
    // LD I, 0 ; DRW V0, V1, 5
    let mut machine = machine_with(&[0xA0, 0x00, 0xD0, 0x15]);
    cycles(&mut machine, 2);
    assert_eq!(machine.cpu().reg(0xF), 0);
    let rows = [0xF0u8, 0x90, 0x90, 0x90, 0xF0];
    for y in 0..32usize {
        for x in 0..64usize {
            let expected = y < 5 && x < 8 && (rows[y] >> (7 - x)) & 1 == 1;
            assert_eq!(machine.display().pixel(x, y), expected);
        }
    }
    assert_eq!(lit_count(&machine), 14);
    assert_eq!(machine.cpu().pc(), 0x204);
}

#[test]
fn drawing_the_glyph_again_erases_it_and_sets_the_flag() {
    let mut machine = machine_with(&[0xA0, 0x00, 0xD0, 0x15, 0xD0, 0x15]);
    cycles(&mut machine, 3);
    assert_eq!(machine.cpu().reg(0xF), 1);
    assert_eq!(lit_count(&machine), 0);
}

#[test]
fn font_instruction_then_draw_shows_the_digit() {
    // LD V2, 7 ; LD F, V2 ; DRW V0, V0, 5
    let mut machine = machine_with(&[0x62, 0x07, 0xF2, 0x29, 0xD0, 0x05]);
    cycles(&mut machine, 3);
    assert_eq!(machine.cpu().index(), 35);
    let rows = [0xF0u8, 0x10, 0x20, 0x40, 0x40];
    for y in 0..5usize {
        for x in 0..8usize {
            assert_eq!(machine.display().pixel(x, y), (rows[y] >> (7 - x)) & 1 == 1);
        }
    }
}

#[test]
fn seventeen_calls_overflow_the_stack() {
    let mut rom = Vec::new();
    for k in 0..17u16 {
        let target = 0x200 + 2 * (k + 1);
        rom.push(0x20 | (target >> 8) as u8);
        rom.push((target & 0xFF) as u8);
    }
    let mut machine = machine_with(&rom);
    for k in 0..16u16 {
        assert_eq!(machine.execute_instruction(&Input::idle(0)), Ok(Progress::Executed));
        assert_eq!(machine.cpu().sp() as u16, k + 1);
        assert_eq!(machine.cpu().pc(), 0x200 + 2 * (k + 1));
    }
    assert_eq!(machine.cpu().sp(), 16);
    assert_eq!(machine.execute_instruction(&Input::idle(0)), Err(Chip8Error::StackOverflow));
    assert_eq!(machine.cpu().sp(), 16);
    assert_eq!(machine.cpu().pc(), 0x220);
    for slot in 0..16u8 {
        assert_eq!(machine.cpu().stack_slot(slot), 0x202 + 2 * slot as u16);
    }
}

#[test]
fn ret_with_an_empty_stack_underflows_and_changes_nothing() {
    // LD V3, 9 ; LD I, 0x123 ; RET
    let mut machine = machine_with(&[0x63, 0x09, 0xA1, 0x23, 0x00, 0xEE]);
    cycles(&mut machine, 2);
    let regs = registers(&machine);
    assert_eq!(machine.execute_instruction(&Input::idle(0)), Err(Chip8Error::StackUnderflow));
    assert_eq!(machine.cpu().sp(), 0);
    assert_eq!(machine.cpu().pc(), 0x204);
    assert_eq!(machine.cpu().index(), 0x123);
    assert_eq!(registers(&machine), regs);
    assert_eq!(machine.memory().read(0x204), Ok(0x00));
    assert_eq!(machine.memory().read(0x205), Ok(0xEE));
    assert_eq!(lit_count(&machine), 0);
    assert_eq!(machine.execute_instruction(&Input::idle(0)), Err(Chip8Error::StackUnderflow));
}

#[test]
fn call_then_ret_comes_back_behind_the_call() {
    // 0x200: CALL 0x206 ; 0x202: LD V0, 1 ; 0x204: JP 0x204 ; 0x206: RET
    let mut machine = machine_with(&[0x22, 0x06, 0x60, 0x01, 0x12, 0x04, 0x00, 0xEE]);
    cycles(&mut machine, 1);
    assert_eq!(machine.cpu().pc(), 0x206);
    assert_eq!(machine.cpu().sp(), 1);
    cycles(&mut machine, 1);
    assert_eq!(machine.cpu().pc(), 0x202);
    assert_eq!(machine.cpu().sp(), 0);
    cycles(&mut machine, 1);
    assert_eq!(machine.cpu().reg(0), 1);
}

#[test]
fn nested_calls_return_in_reverse_order() {
    // 0x200: CALL 0x204 ; 0x202: JP 0x202 ; 0x204: CALL 0x208 ; 0x206: RET ; 0x208: RET
    let mut machine =
        machine_with(&[0x22, 0x04, 0x12, 0x02, 0x22, 0x08, 0x00, 0xEE, 0x00, 0xEE]);
    cycles(&mut machine, 2);
    assert_eq!(machine.cpu().pc(), 0x208);
    assert_eq!(machine.cpu().sp(), 2);
    cycles(&mut machine, 1);
    assert_eq!(machine.cpu().pc(), 0x206);
    cycles(&mut machine, 1);
    assert_eq!(machine.cpu().pc(), 0x202);
    assert_eq!(machine.cpu().sp(), 0);
}

#[test]
fn skip_moves_the_program_counter_by_four() {
    // SE V0, 0 ; (skipped) LD V1, 1 ; LD V2, 2
    let mut machine = machine_with(&[0x30, 0x00, 0x61, 0x01, 0x62, 0x02]);
    cycles(&mut machine, 1);
    assert_eq!(machine.cpu().pc(), 0x204);
    cycles(&mut machine, 1);
    assert_eq!(machine.cpu().reg(1), 0);
    assert_eq!(machine.cpu().reg(2), 2);
    assert_eq!(machine.cpu().pc(), 0x206);
}

#[test]
fn jump_sets_the_program_counter() {
    let mut machine = machine_with(&[0x1A, 0xBC]);
    cycles(&mut machine, 1);
    assert_eq!(machine.cpu().pc(), 0xABC);
}

#[test]
fn instruction_word_is_big_endian() {
    // Read the other way round, 0xE0 0x00 would not be CLS.
    let mut machine = machine_with(&[0x00, 0xE0]);
    assert_eq!(machine.execute_instruction(&Input::idle(0)), Ok(Progress::Executed));
    let mut machine = machine_with(&[0xE0, 0x00]);
    assert_eq!(machine.execute_instruction(&Input::idle(0)), Err(Chip8Error::UnknownOpcode));
}

#[test]
fn unknown_opcode_fails_and_changes_nothing() {
    let mut machine = machine_with(&[0x61, 0x07, 0x81, 0x28]);
    cycles(&mut machine, 1);
    assert_eq!(machine.execute_instruction(&Input::idle(0)), Err(Chip8Error::UnknownOpcode));
    assert_eq!(machine.cpu().pc(), 0x202);
    assert_eq!(machine.cpu().reg(1), 7);
}

#[test]
fn empty_memory_is_an_unknown_opcode() {
    let mut machine = Chip8::new();
    assert_eq!(machine.execute_instruction(&Input::idle(0)), Err(Chip8Error::UnknownOpcode));
    assert_eq!(machine.cpu().pc(), 0x200);
}

#[test]
fn program_counter_past_the_last_instruction_is_out_of_range() {
    // JP 0xFFF: the instruction there would end outside memory.
    let mut machine = machine_with(&[0x1F, 0xFF]);
    cycles(&mut machine, 1);
    assert_eq!(machine.cpu().pc(), 0xFFF);
    assert_eq!(machine.execute_instruction(&Input::idle(0)), Err(Chip8Error::AddressOutOfRange));
    assert_eq!(machine.cpu().pc(), 0xFFF);
}

#[test]
fn running_off_the_end_of_memory_is_out_of_range() {
    let mut rom = vec![0u8; 3584];
    rom[0] = 0x1F;
    rom[1] = 0xFE;
    rom[3582] = 0x60;
    rom[3583] = 0x01;
    let mut machine = machine_with(&rom);
    cycles(&mut machine, 2);
    assert_eq!(machine.cpu().reg(0), 1);
    assert_eq!(machine.cpu().pc(), 4096);
    assert_eq!(machine.execute_instruction(&Input::idle(0)), Err(Chip8Error::AddressOutOfRange));
}

#[test]
fn jump_with_offset_can_leave_memory() {
    // LD V0, 0xFF ; JP V0, 0xFFF
    let mut machine = machine_with(&[0x60, 0xFF, 0xBF, 0xFF]);
    cycles(&mut machine, 2);
    assert_eq!(machine.cpu().pc(), 0xFFF + 0xFF);
    assert_eq!(machine.execute_instruction(&Input::idle(0)), Err(Chip8Error::AddressOutOfRange));
}

#[test]
fn rom_too_large_is_refused() {
    let mut machine = Chip8::new();
    assert_eq!(machine.load_rom(&vec![0x60; 3585]), Err(Chip8Error::InvalidROMSize));
    assert_eq!(machine.memory().read(0x200), Ok(0));
    assert_eq!(machine.load_rom(&vec![0x60; 3584]), Ok(()));
    assert_eq!(machine.memory().read(0xFFF), Ok(0x60));
}

#[test]
fn store_into_protected_memory_is_a_protection_violation() {
    // LD I, 0x050 ; LD [I], V0
    let mut machine = machine_with(&[0xA0, 0x50, 0xF0, 0x55]);
    cycles(&mut machine, 1);
    assert_eq!(
        machine.execute_instruction(&Input::idle(0)),
        Err(Chip8Error::MemoryProtectionViolation)
    );
    assert_eq!(machine.cpu().pc(), 0x202);
    assert_eq!(machine.memory().read(0x50), Ok(0));
}

#[test]
fn wait_for_key_suspends_until_a_key_is_pressed() {
    // LD V5, K ; LD V6, 1
    let mut machine = machine_with(&[0xF5, 0x0A, 0x66, 0x01]);
    for _ in 0..3 {
        assert_eq!(machine.execute_instruction(&Input::idle(0)), Ok(Progress::AwaitingKey));
        assert_eq!(machine.cpu().pc(), 0x200);
        assert_eq!(machine.cpu().reg(5), 0);
    }
    let down_but_not_pressed = Input { keys: 0xFFFF, key: None, random: 0 };
    assert_eq!(machine.execute_instruction(&down_but_not_pressed), Ok(Progress::AwaitingKey));
    let pressed = Input { keys: 0, key: Some(0xC), random: 0 };
    assert_eq!(machine.execute_instruction(&pressed), Ok(Progress::Executed));
    assert_eq!(machine.cpu().reg(5), 0xC);
    assert_eq!(machine.cpu().pc(), 0x202);
}

#[test]
fn key_skip_in_a_program() {
    // LD V1, 0xA ; SKP V1 ; LD V2, 1 ; SKNP V1 ; LD V3, 1
    let rom = [0x61, 0x0A, 0xE1, 0x9E, 0x62, 0x01, 0xE1, 0xA1, 0x63, 0x01];
    let mut machine = machine_with(&rom);
    let input = Input { keys: 1 << 0xA, key: None, random: 0 };
    assert_eq!(machine.execute_instruction(&input), Ok(Progress::Executed));
    assert_eq!(machine.execute_instruction(&input), Ok(Progress::Executed));
    assert_eq!(machine.cpu().pc(), 0x206);
    assert_eq!(machine.execute_instruction(&input), Ok(Progress::Executed));
    assert_eq!(machine.cpu().pc(), 0x208);
    assert_eq!(machine.execute_instruction(&input), Ok(Progress::Executed));
    assert_eq!(machine.cpu().reg(2), 0);
    assert_eq!(machine.cpu().reg(3), 1);
}

#[test]
fn random_in_a_program() {
    // RND V4, 0x3C
    let mut machine = machine_with(&[0xC4, 0x3C]);
    let input = Input { keys: 0, key: None, random: 0xA5 };
    assert_eq!(machine.execute_instruction(&input), Ok(Progress::Executed));
    assert_eq!(machine.cpu().reg(4), 0xA5 & 0x3C);
}

#[test]
fn sound_signal_follows_the_sound_timer() {
    // LD V0, 2 ; LD ST, V0 ; LD DT, V0
    let mut machine = machine_with(&[0x60, 0x02, 0xF0, 0x18, 0xF0, 0x15]);
    cycles(&mut machine, 1);
    assert!(!machine.sound_on());
    cycles(&mut machine, 2);
    assert!(machine.sound_on());
    assert_eq!(machine.cpu().delay_timer(), 2);
    machine.tick_timers();
    assert!(machine.sound_on());
    machine.tick_timers();
    assert!(!machine.sound_on());
    machine.tick_timers();
    assert_eq!(machine.cpu().sound_timer(), 0);
    assert_eq!(machine.cpu().delay_timer(), 0);
    assert_eq!(machine.cpu().pc(), 0x206);
}

#[test]
fn bcd_store_and_load_round_trip() {
    // LD V0, 234 ; LD I, 0x300 ; LD B, V0 ; LD V2, [I]
    let mut machine = machine_with(&[0x60, 234, 0xA3, 0x00, 0xF0, 0x33, 0xF2, 0x65]);
    cycles(&mut machine, 4);
    assert_eq!(machine.cpu().reg(0), 2);
    assert_eq!(machine.cpu().reg(1), 3);
    assert_eq!(machine.cpu().reg(2), 4);
    assert_eq!(machine.cpu().index(), 0x300);
    assert_eq!(machine.memory().read_range(0x300, 3), Ok(vec![2, 3, 4]));
}

#[test]
fn clear_in_a_program() {
    // LD I, 0 ; DRW V0, V0, 5 ; CLS
    let mut machine = machine_with(&[0xA0, 0x00, 0xD0, 0x05, 0x00, 0xE0]);
    cycles(&mut machine, 2);
    assert_eq!(lit_count(&machine), 14);
    cycles(&mut machine, 1);
    assert_eq!(lit_count(&machine), 0);
    assert_eq!(machine.cpu().pc(), 0x206);
}

#[test]
fn subtraction_program_with_borrow() {
    // LD V0, 5 ; LD V1, 10 ; SUB V0, V1
    let mut machine = machine_with(&[0x60, 0x05, 0x61, 0x0A, 0x80, 0x15]);
    cycles(&mut machine, 3);
    assert_eq!(machine.cpu().reg(0), 251);
    assert_eq!(machine.cpu().reg(0xF), 0);
}
