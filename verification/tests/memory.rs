use chip8::error::Chip8Error;
use chip8::ram::{Ram, FONT, RAM_SIZE, RAM_START};

#[test]
fn fresh_memory_holds_the_font_and_zeros() {
    let ram = Ram::new();
    for addr in 0..80u16 {
        assert_eq!(ram.read(addr), Ok(FONT[addr as usize]));
    }
    for addr in 80..RAM_SIZE as u16 {
        assert_eq!(ram.read(addr), Ok(0));
    }
}

#[test]
fn font_table_has_the_sixteen_digit_sprites() {
    assert_eq!(&FONT[0..5], &[0xF0, 0x90, 0x90, 0x90, 0xF0]);
    assert_eq!(&FONT[5..10], &[0x20, 0x60, 0x20, 0x20, 0x70]);
    assert_eq!(&FONT[10..15], &[0xF0, 0x10, 0xF0, 0x80, 0xF0]);
    assert_eq!(&FONT[15..20], &[0xF0, 0x10, 0xF0, 0x10, 0xF0]);
    assert_eq!(&FONT[20..25], &[0x90, 0x90, 0xF0, 0x10, 0x10]);
    assert_eq!(&FONT[25..30], &[0xF0, 0x80, 0xF0, 0x10, 0xF0]);
    assert_eq!(&FONT[30..35], &[0xF0, 0x80, 0xF0, 0x90, 0xF0]);
    assert_eq!(&FONT[35..40], &[0xF0, 0x10, 0x20, 0x40, 0x40]);
    assert_eq!(&FONT[40..45], &[0xF0, 0x90, 0xF0, 0x90, 0xF0]);
    assert_eq!(&FONT[45..50], &[0xF0, 0x90, 0xF0, 0x10, 0xF0]);
    assert_eq!(&FONT[50..55], &[0xF0, 0x90, 0xF0, 0x90, 0x90]);
    assert_eq!(&FONT[55..60], &[0xE0, 0x90, 0xE0, 0x90, 0xE0]);
    assert_eq!(&FONT[60..65], &[0xF0, 0x80, 0x80, 0x80, 0xF0]);
    assert_eq!(&FONT[65..70], &[0xE0, 0x90, 0x90, 0x90, 0xE0]);
    assert_eq!(&FONT[70..75], &[0xF0, 0x80, 0xF0, 0x80, 0xF0]);
    assert_eq!(&FONT[75..80], &[0xF0, 0x80, 0xF0, 0x80, 0x80]);
}

#[test]
fn write_then_read_returns_the_value_everywhere_above_the_program_start() {
    let mut ram = Ram::new();
    for addr in RAM_START as u16..RAM_SIZE as u16 {
        let value = (addr % 251) as u8 + 1;
        assert_eq!(ram.write(addr, value), Ok(()));
        assert_eq!(ram.read(addr), Ok(value));
    }
    for addr in RAM_START as u16..RAM_SIZE as u16 {
        assert_eq!(ram.read(addr), Ok((addr % 251) as u8 + 1));
    }
}

#[test]
fn write_below_the_program_start_is_a_protection_violation() {
    let mut ram = Ram::new();
    for addr in 0..RAM_START as u16 {
        assert_eq!(ram.write(addr, 0xAA), Err(Chip8Error::MemoryProtectionViolation));
    }
    assert_eq!(ram.read(0), Ok(0xF0));
    assert_eq!(ram.read(0x1FF), Ok(0));
}

#[test]
fn write_at_the_first_and_last_program_address_succeeds() {
    let mut ram = Ram::new();
    assert_eq!(ram.write(0x200, 7), Ok(()));
    assert_eq!(ram.write(0xFFF, 9), Ok(()));
    assert_eq!(ram.read(0x200), Ok(7));
    assert_eq!(ram.read(0xFFF), Ok(9));
    assert_eq!(ram.read(0x201), Ok(0));
}

#[test]
fn access_past_the_end_of_memory_is_out_of_range() {
    let mut ram = Ram::new();
    assert_eq!(ram.read(4096), Err(Chip8Error::AddressOutOfRange));
    assert_eq!(ram.read(0xFFFF), Err(Chip8Error::AddressOutOfRange));
    assert_eq!(ram.write(4096, 1), Err(Chip8Error::AddressOutOfRange));
    assert_eq!(ram.write(0xFFFF, 1), Err(Chip8Error::AddressOutOfRange));
}

#[test]
fn rom_is_copied_verbatim_to_the_program_start() {
    let mut ram = Ram::new();
    let rom = vec![0x60, 0x0A, 0x61, 0x05, 0x80, 0x14];
    assert_eq!(ram.read_rom(&rom), Ok(()));
    for (k, byte) in rom.iter().enumerate() {
        assert_eq!(ram.read(0x200 + k as u16), Ok(*byte));
    }
    assert_eq!(ram.read(0x206), Ok(0));
    assert_eq!(ram.read(0x1FF), Ok(0));
    assert_eq!(ram.read(0), Ok(0xF0));
}

#[test]
fn largest_rom_fills_memory_to_the_end() {
    let mut ram = Ram::new();
    let rom: Vec<u8> = (0..3584usize).map(|k| (k % 255) as u8 + 1).collect();
    assert_eq!(ram.read_rom(&rom), Ok(()));
    assert_eq!(ram.read(0x200), Ok(1));
    assert_eq!(ram.read(0xFFF), Ok((3583 % 255) as u8 + 1));
}

#[test]
fn rom_one_byte_too_long_is_refused_and_memory_kept() {
    let mut ram = Ram::new();
    assert_eq!(ram.write(0x200, 0x55), Ok(()));
    let rom = vec![0xFFu8; 3585];
    assert_eq!(ram.read_rom(&rom), Err(Chip8Error::InvalidROMSize));
    assert_eq!(ram.read(0x200), Ok(0x55));
    assert_eq!(ram.read(0x201), Ok(0));
}

#[test]
fn empty_rom_loads_and_changes_nothing() {
    let mut ram = Ram::new();
    assert_eq!(ram.read_rom(&Vec::new()), Ok(()));
    assert_eq!(ram.read(0x200), Ok(0));
}

#[test]
fn read_range_returns_the_bytes_in_order() {
    let mut ram = Ram::new();
    assert_eq!(ram.read_rom(&vec![1, 2, 3, 4, 5]), Ok(()));
    assert_eq!(ram.read_range(0x201, 3), Ok(vec![2, 3, 4]));
    assert_eq!(ram.read_range(0, 5), Ok(vec![0xF0, 0x90, 0x90, 0x90, 0xF0]));
    assert_eq!(ram.read_range(4095, 1), Ok(vec![0]));
}

#[test]
fn read_range_past_the_end_is_out_of_range() {
    let ram = Ram::new();
    assert_eq!(ram.read_range(4095, 2), Err(Chip8Error::AddressOutOfRange));
    assert_eq!(ram.read_range(4096, 1), Err(Chip8Error::AddressOutOfRange));
    assert_eq!(ram.read_range(0, 4097), Err(Chip8Error::AddressOutOfRange));
    assert_eq!(ram.read_range(0xFFFF, usize::MAX), Err(Chip8Error::AddressOutOfRange));
}

#[test]
fn read_range_of_nothing_always_succeeds() {
    let ram = Ram::new();
    assert_eq!(ram.read_range(0xFFFF, 0), Ok(Vec::new()));
    assert_eq!(ram.read_range(0, 0), Ok(Vec::new()));
}

#[test]
fn write_range_stores_all_bytes() {
    let mut ram = Ram::new();
    assert_eq!(ram.write_range(0x300, &vec![9, 8, 7]), Ok(()));
    assert_eq!(ram.read(0x2FF), Ok(0));
    assert_eq!(ram.read(0x300), Ok(9));
    assert_eq!(ram.read(0x301), Ok(8));
    assert_eq!(ram.read(0x302), Ok(7));
    assert_eq!(ram.read(0x303), Ok(0));
    assert_eq!(ram.write_range(0xFFD, &vec![1, 2, 3]), Ok(()));
    assert_eq!(ram.read(0xFFF), Ok(3));
}

#[test]
fn write_range_that_fails_writes_nothing() {
    let mut ram = Ram::new();
    assert_eq!(
        ram.write_range(0x1FF, &vec![1, 2]),
        Err(Chip8Error::MemoryProtectionViolation)
    );
    assert_eq!(ram.read(0x1FF), Ok(0));
    assert_eq!(ram.read(0x200), Ok(0));
    assert_eq!(ram.write_range(0xFFE, &vec![1, 2, 3]), Err(Chip8Error::AddressOutOfRange));
    assert_eq!(ram.read(0xFFE), Ok(0));
    assert_eq!(ram.read(0xFFF), Ok(0));
    assert_eq!(ram.write_range(5000, &vec![1]), Err(Chip8Error::AddressOutOfRange));
}

#[test]
fn write_range_of_nothing_always_succeeds() {
    let mut ram = Ram::new();
    assert_eq!(ram.write_range(0, &Vec::new()), Ok(()));
    assert_eq!(ram.write_range(0xFFFF, &Vec::new()), Ok(()));
}
