use rustboy::mmu::{
    cartridge_supported, init_memory, load_rom, read_bit, read_byte, read_word, region,
    write_byte, write_word, Memory, Region,
};

#[test]
fn test_write_byte() {
    let mut mem = Memory::new();
    let adr = 0xFFFE;
    let val = 0xFF;
    write_byte(adr, val, &mut mem);
    assert_eq!(val, read_byte(adr, &mem));
}

#[test]
fn init_memory_test() {
    let mut mem = Memory::new();
    init_memory(&mut mem);
    assert_eq!(0x00, read_byte(0x7FFF, &mem));
    assert_eq!(0xCF, read_byte(0xFF00, &mem));
    assert_eq!(0x7E, read_byte(0xFF02, &mem));
    assert_eq!(0x00, read_byte(0xFFFF, &mem));
}

#[test]
fn test_word_round_trip() {
    let mut mem = Memory::new();
    write_word(0x0000, 0xFFFF, &mut mem);
    assert_eq!(read_word(0x0000, &mem), 0xFFFF);
    write_word(0xC123, 0xBEEF, &mut mem);
    assert_eq!(read_word(0xC123, &mem), 0xBEEF);
    write_word(0xFFFE, 0x1234, &mut mem);
    assert_eq!(read_word(0xFFFE, &mem), 0x1234);
}

#[test]
fn test_word_is_little_endian() {
    let mut mem = Memory::new();
    write_word(0xC000, 0xAB12, &mut mem);
    assert_eq!(read_byte(0xC000, &mem), 0x12);
    assert_eq!(read_byte(0xC001, &mem), 0xAB);
}

#[test]
fn test_read_bit() {
    let mut mem = Memory::new();
    write_byte(0xFF40, 0b1000_0001, &mut mem);
    assert!(read_bit(0xFF40, 7, &mem));
    assert!(read_bit(0xFF40, 0, &mem));
    assert!(!read_bit(0xFF40, 3, &mem));
}

#[test]
fn test_region_classifier() {
    assert_eq!(region(0x0000), Region::Rom);
    assert_eq!(region(0x7FFF), Region::Rom);
    assert_eq!(region(0x8000), Region::Vram);
    assert_eq!(region(0xA000), Region::Ram);
    assert_eq!(region(0xC000), Region::Wram);
    assert_eq!(region(0xE000), Region::Forbidden);
    assert_eq!(region(0xFE00), Region::Oam);
    assert_eq!(region(0xFEA0), Region::Forbidden);
    assert_eq!(region(0xFF00), Region::Io);
    assert_eq!(region(0xFF80), Region::Hram);
    assert_eq!(region(0xFFFF), Region::InterruptEnable);
}

#[test]
fn test_load_rom_fills_bottom_of_memory() {
    let mut mem = Memory::new();
    write_byte(0x0004, 0x77, &mut mem);
    let rom = vec![0x3E, 0x05, 0x06, 0x03];
    load_rom(&rom, &mut mem);
    assert_eq!(read_byte(0x0000, &mem), 0x3E);
    assert_eq!(read_byte(0x0003, &mem), 0x03);
    assert_eq!(read_byte(0x0004, &mem), 0x77);
}

#[test]
fn test_cartridge_supported_checks_type_byte() {
    let mut mem = Memory::new();
    assert!(cartridge_supported(&mem));
    write_byte(0x0147, 0x01, &mut mem);
    assert!(!cartridge_supported(&mem));
}
