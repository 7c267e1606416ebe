use rustboy::cpu::Cpu;
use rustboy::mmu::{load_rom, read_byte, read_word, write_byte, Memory};
use rustboy::registers::Flag;

fn boot(rom: &[u8]) -> (Cpu, Memory) {
    let mut mem = Memory::new();
    let bytes = rom.to_vec();
    load_rom(&bytes, &mut mem);
    (Cpu::new(), mem)
}

#[test]
fn test_immediate_loads() {
    let (mut cpu, mut mem) = boot(&[
        0x01, 0x34, 0x12, 0x11, 0x78, 0x56, 0x21, 0xCD, 0xAB, 0x31, 0xFE, 0xFF, 0x06, 0x42,
        0x0E, 0x43, 0x16, 0x44, 0x1E, 0x45, 0x3E, 0x46,
    ]);
    for _ in 0..4 {
        assert_eq!(cpu.tick(&mut mem), Ok(3));
    }
    assert_eq!(cpu.reg.bc(), 0x1234);
    assert_eq!(cpu.reg.de(), 0x5678);
    assert_eq!(cpu.reg.hl(), 0xABCD);
    assert_eq!(cpu.reg.sp, 0xFFFE);
    for _ in 0..5 {
        assert_eq!(cpu.tick(&mut mem), Ok(2));
    }
    assert_eq!(cpu.reg.b, 0x42);
    assert_eq!(cpu.reg.c, 0x43);
    assert_eq!(cpu.reg.d, 0x44);
    assert_eq!(cpu.reg.e, 0x45);
    assert_eq!(cpu.reg.a, 0x46);
    assert_eq!(cpu.reg.pc, 22);
}

#[test]
fn test_register_to_register_moves() {
    let (mut cpu, mut mem) = boot(&[0x47, 0x4F, 0x5F, 0x67, 0x6F, 0x79]);
    cpu.reg.a = 5;
    assert_eq!(cpu.tick(&mut mem), Ok(1));
    assert_eq!(cpu.reg.b, 5);
    cpu.reg.a = 6;
    cpu.tick(&mut mem).unwrap();
    assert_eq!(cpu.reg.c, 6);
    cpu.reg.a = 7;
    cpu.tick(&mut mem).unwrap();
    assert_eq!(cpu.reg.e, 7);
    cpu.reg.a = 8;
    cpu.tick(&mut mem).unwrap();
    assert_eq!(cpu.reg.h, 8);
    cpu.reg.a = 9;
    cpu.tick(&mut mem).unwrap();
    assert_eq!(cpu.reg.l, 9);
    cpu.tick(&mut mem).unwrap();
    assert_eq!(cpu.reg.a, 6);
}

#[test]
fn test_store_and_load_through_pairs() {
    let (mut cpu, mut mem) = boot(&[0x02, 0x0A, 0x12, 0x1A]);
    cpu.reg.set_bc(0xC010);
    cpu.reg.set_de(0xC011);
    cpu.reg.a = 0x99;
    assert_eq!(cpu.tick(&mut mem), Ok(2));
    assert_eq!(read_byte(0xC010, &mem), 0x99);
    cpu.reg.a = 0;
    assert_eq!(cpu.tick(&mut mem), Ok(2));
    assert_eq!(cpu.reg.a, 0x99);
    cpu.reg.a = 0x98;
    cpu.tick(&mut mem).unwrap();
    assert_eq!(read_byte(0xC011, &mem), 0x98);
    cpu.reg.a = 0;
    cpu.tick(&mut mem).unwrap();
    assert_eq!(cpu.reg.a, 0x98);
}

#[test]
fn test_hl_post_increment_and_decrement_moves() {
    let (mut cpu, mut mem) = boot(&[0x22, 0x2A, 0x32]);
    cpu.reg.set_hl(0xC020);
    cpu.reg.a = 0x55;
    assert_eq!(cpu.tick(&mut mem), Ok(2));
    assert_eq!(read_byte(0xC020, &mem), 0x55);
    assert_eq!(cpu.reg.hl(), 0xC021);
    cpu.reg.set_hl(0xC020);
    cpu.reg.a = 0;
    assert_eq!(cpu.tick(&mut mem), Ok(2));
    assert_eq!(cpu.reg.a, 0x55);
    assert_eq!(cpu.reg.hl(), 0xC021);
    cpu.reg.set_hl(0xC030);
    cpu.reg.a = 0x66;
    assert_eq!(cpu.tick(&mut mem), Ok(2));
    assert_eq!(read_byte(0xC030, &mem), 0x66);
    assert_eq!(cpu.reg.hl(), 0xC02F);
}

#[test]
fn test_loads_from_hl_and_store() {
    let (mut cpu, mut mem) = boot(&[0x56, 0x5E, 0x7E, 0x77]);
    write_byte(0xC040, 0xAB, &mut mem);
    cpu.reg.set_hl(0xC040);
    assert_eq!(cpu.tick(&mut mem), Ok(2));
    assert_eq!(cpu.reg.d, 0xAB);
    cpu.tick(&mut mem).unwrap();
    assert_eq!(cpu.reg.e, 0xAB);
    cpu.tick(&mut mem).unwrap();
    assert_eq!(cpu.reg.a, 0xAB);
    cpu.reg.a = 0xCD;
    assert_eq!(cpu.tick(&mut mem), Ok(2));
    assert_eq!(read_byte(0xC040, &mem), 0xCD);
}

#[test]
fn test_absolute_and_high_memory_moves() {
    let (mut cpu, mut mem) = boot(&[
        0xEA, 0x34, 0xC2, 0xFA, 0x34, 0xC2, 0xE0, 0x80, 0xF0, 0x80, 0xE2,
    ]);
    cpu.reg.a = 0x77;
    assert_eq!(cpu.tick(&mut mem), Ok(4));
    assert_eq!(read_byte(0xC234, &mem), 0x77);
    cpu.reg.a = 0;
    assert_eq!(cpu.tick(&mut mem), Ok(4));
    assert_eq!(cpu.reg.a, 0x77);
    assert_eq!(cpu.tick(&mut mem), Ok(3));
    assert_eq!(read_byte(0xFF80, &mem), 0x77);
    cpu.reg.a = 0;
    assert_eq!(cpu.tick(&mut mem), Ok(3));
    assert_eq!(cpu.reg.a, 0x77);
    cpu.reg.c = 0x81;
    cpu.reg.a = 0x12;
    assert_eq!(cpu.tick(&mut mem), Ok(2));
    assert_eq!(read_byte(0xFF81, &mem), 0x12);
}

#[test]
fn test_sixteen_bit_inc_dec() {
    let (mut cpu, mut mem) = boot(&[0x03, 0x13, 0x23, 0x0B]);
    cpu.reg.set_bc(0x00FF);
    cpu.reg.set_de(0xFFFF);
    cpu.reg.set_hl(0x1234);
    assert_eq!(cpu.tick(&mut mem), Ok(2));
    assert_eq!(cpu.reg.bc(), 0x0100);
    cpu.tick(&mut mem).unwrap();
    assert_eq!(cpu.reg.de(), 0x0000);
    cpu.tick(&mut mem).unwrap();
    assert_eq!(cpu.reg.hl(), 0x1235);
    cpu.tick(&mut mem).unwrap();
    assert_eq!(cpu.reg.bc(), 0x00FF);
}

#[test]
fn test_eight_bit_inc_dec_flags() {
    let (mut cpu, mut mem) = boot(&[0x04, 0x0C, 0x15, 0x1D, 0x25, 0x2C]);
    cpu.reg.b = 0xFF;
    assert_eq!(cpu.tick(&mut mem), Ok(1));
    assert_eq!(cpu.reg.b, 0x00);
    assert_eq!(cpu.reg.f, 0xA0);
    cpu.reg.c = 0x0F;
    cpu.reg.f = 0;
    cpu.tick(&mut mem).unwrap();
    assert_eq!(cpu.reg.c, 0x10);
    assert_eq!(cpu.reg.f, 0x20);
    cpu.reg.d = 0x00;
    cpu.reg.f = 0;
    cpu.tick(&mut mem).unwrap();
    assert_eq!(cpu.reg.d, 0xFF);
    assert_eq!(cpu.reg.f, 0x60);
    cpu.reg.e = 0x01;
    cpu.reg.f = 0;
    cpu.tick(&mut mem).unwrap();
    assert_eq!(cpu.reg.e, 0x00);
    assert_eq!(cpu.reg.f, 0xC0);
    cpu.reg.h = 0x10;
    cpu.reg.f = 0;
    cpu.tick(&mut mem).unwrap();
    assert_eq!(cpu.reg.h, 0x0F);
    assert_eq!(cpu.reg.f, 0x60);
    cpu.reg.l = 0xFF;
    cpu.reg.f = 0;
    cpu.tick(&mut mem).unwrap();
    assert_eq!(cpu.reg.l, 0x00);
    assert_eq!(cpu.reg.f, 0xA0);
}

#[test]
fn test_add_hl_pairs() {
    let (mut cpu, mut mem) = boot(&[0x09, 0x19, 0x29]);
    cpu.reg.set_hl(0x0FFF);
    cpu.reg.set_bc(0x0001);
    assert_eq!(cpu.tick(&mut mem), Ok(2));
    assert_eq!(cpu.reg.hl(), 0x1000);
    assert_eq!(cpu.reg.f, 0x20);
    cpu.reg.set_hl(0xFFFF);
    cpu.reg.set_de(0x0001);
    cpu.tick(&mut mem).unwrap();
    assert_eq!(cpu.reg.hl(), 0x0000);
    assert_eq!(cpu.reg.f, 0x30);
    cpu.reg.set_hl(0x8000);
    cpu.tick(&mut mem).unwrap();
    assert_eq!(cpu.reg.hl(), 0x0000);
    assert_eq!(cpu.reg.f, 0x10);
}

#[test]
fn test_accumulator_register_ops() {
    let (mut cpu, mut mem) = boot(&[
        0x85, 0x87, 0x89, 0x8A, 0x90, 0x93, 0x99, 0xA1, 0xA7, 0xA9, 0xAF, 0xB0, 0xB1, 0xBF,
    ]);
    cpu.reg.a = 1;
    cpu.reg.l = 2;
    assert_eq!(cpu.tick(&mut mem), Ok(1));
    assert_eq!(cpu.reg.a, 3);
    assert_eq!(cpu.reg.f, 0x00);
    cpu.reg.a = 0xF0;
    cpu.tick(&mut mem).unwrap();
    assert_eq!(cpu.reg.a, 0xF0);
    assert_eq!(cpu.reg.f, 0x20);
    cpu.reg.set_flag(Flag::C, true);
    cpu.reg.a = 1;
    cpu.reg.c = 2;
    cpu.tick(&mut mem).unwrap();
    assert_eq!(cpu.reg.a, 4);
    assert_eq!(cpu.reg.f, 0x00);
    cpu.reg.a = 4;
    cpu.reg.d = 0xFC;
    cpu.tick(&mut mem).unwrap();
    assert_eq!(cpu.reg.a, 0x00);
    assert_eq!(cpu.reg.f, 0xB0);
    cpu.reg.a = 5;
    cpu.reg.b = 3;
    cpu.tick(&mut mem).unwrap();
    assert_eq!(cpu.reg.a, 2);
    assert_eq!(cpu.reg.f, 0x40);
    cpu.reg.a = 2;
    cpu.reg.e = 3;
    cpu.tick(&mut mem).unwrap();
    assert_eq!(cpu.reg.a, 0xFF);
    assert_eq!(cpu.reg.f, 0x70);
    cpu.reg.set_flag(Flag::C, true);
    cpu.reg.a = 5;
    cpu.reg.c = 2;
    cpu.tick(&mut mem).unwrap();
    assert_eq!(cpu.reg.a, 2);
    assert_eq!(cpu.reg.f, 0x40);
    cpu.reg.a = 0x0F;
    cpu.reg.c = 0x03;
    cpu.tick(&mut mem).unwrap();
    assert_eq!(cpu.reg.a, 0x03);
    assert_eq!(cpu.reg.f, 0x20);
    cpu.reg.a = 0;
    cpu.tick(&mut mem).unwrap();
    assert_eq!(cpu.reg.a, 0);
    assert_eq!(cpu.reg.f, 0xA0);
    cpu.reg.a = 0x0F;
    cpu.reg.c = 0xFF;
    cpu.tick(&mut mem).unwrap();
    assert_eq!(cpu.reg.a, 0xF0);
    assert_eq!(cpu.reg.f, 0x00);
    cpu.tick(&mut mem).unwrap();
    assert_eq!(cpu.reg.a, 0x00);
    assert_eq!(cpu.reg.f, 0x80);
    cpu.reg.b = 0x55;
    cpu.tick(&mut mem).unwrap();
    assert_eq!(cpu.reg.a, 0x55);
    assert_eq!(cpu.reg.f, 0x00);
    cpu.reg.c = 0xAA;
    cpu.tick(&mut mem).unwrap();
    assert_eq!(cpu.reg.a, 0xFF);
    assert_eq!(cpu.reg.f, 0x00);
    cpu.tick(&mut mem).unwrap();
    assert_eq!(cpu.reg.a, 0xFF);
    assert_eq!(cpu.reg.f, 0xC0);
}

#[test]
fn test_accumulator_immediate_ops() {
    let (mut cpu, mut mem) = boot(&[0xC6, 0x01, 0xDE, 0x0F, 0xE6, 0x0F, 0xFE, 0x0C]);
    cpu.reg.a = 0x0F;
    assert_eq!(cpu.tick(&mut mem), Ok(2));
    assert_eq!(cpu.reg.a, 0x10);
    assert_eq!(cpu.reg.f, 0x20);
    cpu.reg.set_flag(Flag::C, true);
    assert_eq!(cpu.tick(&mut mem), Ok(2));
    assert_eq!(cpu.reg.a, 0x00);
    assert_eq!(cpu.reg.f, 0xE0);
    cpu.reg.a = 0x3C;
    assert_eq!(cpu.tick(&mut mem), Ok(2));
    assert_eq!(cpu.reg.a, 0x0C);
    assert_eq!(cpu.reg.f, 0x20);
    assert_eq!(cpu.tick(&mut mem), Ok(2));
    assert_eq!(cpu.reg.a, 0x0C);
    assert_eq!(cpu.reg.f, 0xC0);
}

#[test]
fn test_jp_absolute_and_jp_hl() {
    let mut rom = vec![0x00; 0x11];
    rom[0] = 0xC3;
    rom[1] = 0x10;
    rom[2] = 0x00;
    rom[0x10] = 0xE9;
    let (mut cpu, mut mem) = boot(&rom);
    assert_eq!(cpu.tick(&mut mem), Ok(4));
    assert_eq!(cpu.reg.pc, 0x0010);
    cpu.reg.set_hl(0x0200);
    assert_eq!(cpu.tick(&mut mem), Ok(1));
    assert_eq!(cpu.reg.pc, 0x0200);
}

#[test]
fn test_conditional_relative_jumps_taken() {
    let (mut cpu, mut mem) = boot(&[0x28, 0x02]);
    cpu.reg.set_flag(Flag::Z, true);
    assert_eq!(cpu.tick(&mut mem), Ok(3));
    assert_eq!(cpu.reg.pc, 0x0004);
    let (mut cpu2, mut mem2) = boot(&[0x20, 0x02]);
    assert_eq!(cpu2.tick(&mut mem2), Ok(3));
    assert_eq!(cpu2.reg.pc, 0x0004);
}

#[test]
fn test_jr_on_carry_consumes_operand_when_not_taken() {
    let (mut cpu, mut mem) = boot(&[0x38, 0x02]);
    cpu.reg.set_flag(Flag::C, true);
    assert_eq!(cpu.tick(&mut mem), Ok(2));
    assert_eq!(cpu.reg.pc, 0x0004);
    let (mut cpu2, mut mem2) = boot(&[0x38, 0x02]);
    assert_eq!(cpu2.tick(&mut mem2), Ok(2));
    assert_eq!(cpu2.reg.pc, 0x0002);
}

#[test]
fn test_jp_nc_jumps_when_carry_clear() {
    let (mut cpu, mut mem) = boot(&[0xD2, 0x34, 0x12]);
    assert_eq!(cpu.tick(&mut mem), Ok(4));
    assert_eq!(cpu.reg.pc, 0x1234);
    let (mut cpu2, mut mem2) = boot(&[0xD2, 0x34, 0x12]);
    cpu2.reg.set_flag(Flag::C, true);
    assert_eq!(cpu2.tick(&mut mem2), Ok(3));
    assert_eq!(cpu2.reg.pc, 0x0003);
}

#[test]
fn test_conditional_returns() {
    let (mut cpu, mut mem) = boot(&[0xC0]);
    cpu.reg.sp = 0xFFFC;
    write_byte(0xFFFC, 0x77, &mut mem);
    write_byte(0xFFFD, 0x00, &mut mem);
    assert_eq!(cpu.tick(&mut mem), Ok(5));
    assert_eq!(cpu.reg.pc, 0x0077);
    assert_eq!(cpu.reg.sp, 0xFFFE);
    let (mut cpu2, mut mem2) = boot(&[0xC0]);
    cpu2.reg.set_flag(Flag::Z, true);
    assert_eq!(cpu2.tick(&mut mem2), Ok(2));
    assert_eq!(cpu2.reg.pc, 0x0001);
    let (mut cpu3, mut mem3) = boot(&[0xC8]);
    cpu3.reg.set_flag(Flag::Z, true);
    cpu3.reg.sp = 0xFFFC;
    write_byte(0xFFFC, 0x66, &mut mem3);
    assert_eq!(cpu3.tick(&mut mem3), Ok(5));
    assert_eq!(cpu3.reg.pc, 0x0066);
}

#[test]
fn test_rst_28_pushes_and_vectors() {
    let (mut cpu, mut mem) = boot(&[0xEF]);
    cpu.reg.sp = 0xFFFE;
    assert_eq!(cpu.tick(&mut mem), Ok(4));
    assert_eq!(cpu.reg.pc, 0x0028);
    assert_eq!(read_word(0xFFFC, &mem), 0x0001);
}

#[test]
fn test_reti_returns_and_arms_enable() {
    let mut rom = vec![0x00; 0x08];
    rom[0] = 0xD9;
    let (mut cpu, mut mem) = boot(&rom);
    cpu.reg.sp = 0xFFFC;
    write_byte(0xFFFC, 0x05, &mut mem);
    assert_eq!(cpu.tick(&mut mem), Ok(4));
    assert_eq!(cpu.reg.pc, 0x0005);
    assert!(!cpu.reg.ime);
    cpu.tick(&mut mem).unwrap();
    assert!(!cpu.reg.ime);
    cpu.tick(&mut mem).unwrap();
    assert!(cpu.reg.ime);
}

#[test]
fn test_cpl_and_stop() {
    let (mut cpu, mut mem) = boot(&[0x2F, 0x10]);
    cpu.reg.a = 0x0F;
    assert_eq!(cpu.tick(&mut mem), Ok(1));
    assert_eq!(cpu.reg.a, 0xF0);
    assert_eq!(cpu.reg.f, 0x60);
    assert_eq!(cpu.tick(&mut mem), Ok(1));
    assert_eq!(cpu.reg.pc, 0x0002);
}

#[test]
fn test_ld_hl_d8_stores_operand() {
    let (mut cpu, mut mem) = boot(&[0x36, 0xFF]);
    cpu.reg.set_hl(0xC000);
    cpu.reg.f = 0x30;
    assert_eq!(cpu.tick(&mut mem), Ok(2));
    assert_eq!(read_byte(0xC000, &mem), 0xFF);
    assert_eq!(cpu.reg.f, 0x30);
    assert_eq!(cpu.reg.pc, 0x0002);
}

#[test]
fn test_store_sp_at_absolute_address() {
    let (mut cpu, mut mem) = boot(&[0x08, 0x00, 0xC1]);
    cpu.reg.sp = 0xABCD;
    assert_eq!(cpu.tick(&mut mem), Ok(5));
    assert_eq!(read_byte(0xC100, &mem), 0xCD);
    assert_eq!(read_byte(0xC101, &mem), 0xAB);
    assert_eq!(cpu.reg.pc, 0x0003);
}

#[test]
fn test_extended_sla_and_bit_tests() {
    let (mut cpu, mut mem) = boot(&[0xCB, 0x27, 0xCB, 0x41, 0xCB, 0x6F]);
    cpu.reg.a = 0x81;
    assert_eq!(cpu.tick(&mut mem), Ok(2));
    assert_eq!(cpu.reg.a, 0x02);
    assert_eq!(cpu.reg.f, 0x10);
    cpu.reg.c = 0x01;
    assert_eq!(cpu.tick(&mut mem), Ok(2));
    assert_eq!(cpu.reg.f, 0x30);
    cpu.reg.a = 0x20;
    assert_eq!(cpu.tick(&mut mem), Ok(2));
    assert_eq!(cpu.reg.f, 0x30);
    assert_eq!(cpu.reg.a, 0x20);
}

#[test]
fn test_push_af_and_pop_hl() {
    let (mut cpu, mut mem) = boot(&[0xF5, 0xE1]);
    cpu.reg.sp = 0xFFFE;
    cpu.reg.a = 0x9A;
    cpu.reg.f = 0x30;
    assert_eq!(cpu.tick(&mut mem), Ok(4));
    assert_eq!(cpu.tick(&mut mem), Ok(3));
    assert_eq!(cpu.reg.hl(), 0x9A30);
    assert_eq!(cpu.reg.sp, 0xFFFE);
}
