use rustboy::alu::{
    alu_adc, alu_add, alu_add_hl, alu_and, alu_bit, alu_cp, alu_dec, alu_inc, alu_or, alu_rlc,
    alu_set, alu_sla, alu_sub, alu_swap, alu_xor, carry_add, carry_sub,
};
use rustboy::alu::alu_sbc;
use rustboy::registers::{Flag, Registers};

#[test]
fn test_carry_add() {
    let mut reg = Registers::new();
    reg.a = 0xFF;
    let (r, h, c) = carry_add(reg.a, 0x01);
    assert_eq!(r, 0x00);
    assert_eq!(h, true);
    assert_eq!(c, true);
}

#[test]
fn test_carry_sub() {
    let mut reg = Registers::new();
    reg.a = 0x00;
    let (r, h, c) = carry_sub(reg.a, 0xFF);
    assert_eq!(r, 0x01);
    assert_eq!(h, true);
    assert_eq!(c, true);
}

#[test]
fn test_alu_add() {
    let mut reg = Registers::new();
    reg.f = 0b11110000;
    reg.a = 0x01;
    alu_add(&mut reg, 0x02);
    assert_eq!(reg.a, 0x03);
    assert_eq!(reg.f, 0);
}

#[test]
fn test_alu_adc() {
    let mut reg = Registers::new();
    reg.f = 0b11110000;
    reg.a = 0x01;
    alu_adc(&mut reg, 0x02);
    assert_eq!(reg.a, 0x04);
    assert_eq!(reg.f, 0);
}

#[test]
fn test_alu_sub() {
    let mut reg = Registers::new();
    reg.f = 0b11110000;
    reg.a = 0x01;
    alu_sub(&mut reg, 0x02);
    assert_eq!(reg.a, 0xFF);
    assert_eq!(reg.f, 0b01110000);
}

#[test]
fn test_alu_sbc() {
    let mut reg = Registers::new();
    reg.f = 0b11110000;
    reg.a = 0x01;
    alu_sbc(&mut reg, 0x02);
    assert_eq!(reg.a, 0xFE);
    assert_eq!(reg.f, 0b01110000);
}

#[test]
fn test_alu_and() {
    let mut reg = Registers::new();
    reg.f = 0b11110000;
    reg.a = 0x01;
    alu_and(&mut reg, 0x02);
    assert_eq!(reg.a, 0x00);
    assert_eq!(reg.f, 0b10100000);
}

#[test]
fn test_alu_or() {
    let mut reg = Registers::new();
    reg.f = 0b11110000;
    reg.a = 0x01;
    alu_or(&mut reg, 0x03);
    assert_eq!(reg.a, 0x03);
    assert_eq!(reg.f, 0);
}

#[test]
fn test_alu_xor() {
    let mut reg = Registers::new();
    reg.f = 0b11110000;
    reg.a = 0x01;
    alu_xor(&mut reg, 0x03);
    assert_eq!(reg.a, 0x02);
    assert_eq!(reg.f, 0);
}

#[test]
fn test_alu_cp() {
    let mut reg = Registers::new();
    reg.f = 0b11110000;
    reg.a = 0x01;
    alu_cp(&mut reg, 0x02);
    assert_eq!(reg.a, 0x01);
    assert_eq!(reg.f, 0b01110000);
}

#[test]
fn test_alu_inc() {
    let mut reg = Registers::new();
    reg.f = 0b11110000;
    reg.a = 0x01;
    let n = reg.a;
    reg.a = alu_inc(&mut reg, n);
    assert_eq!(reg.a, 0x02);
    assert_eq!(reg.f, 0b00010000);
}

#[test]
fn test_alu_dec() {
    let mut reg = Registers::new();
    reg.f = 0b11110000;
    reg.a = 0x01;
    let n = reg.a;
    reg.a = alu_dec(&mut reg, n);
    assert_eq!(reg.a, 0x00);
    assert_eq!(reg.f, 0b11010000);
}

#[test]
fn test_alu_add_hl() {
    let mut reg = Registers::new();
    reg.set_hl(0x0FFF);
    let n = 0x0FFE;
    alu_add_hl(&mut reg, n);
    assert!(!reg.get_flag(Flag::N));
    assert!(reg.get_flag(Flag::H));
    assert!(!reg.get_flag(Flag::C));
}

#[test]
fn test_alu_swap() {
    let mut reg = Registers::new();
    reg.f = 0b11110000;
    let n = alu_swap(&mut reg, 0x01);
    assert_eq!(n, 0b00010000);
    assert_eq!(reg.f, 0b00000000);
}

#[test]
fn test_alu_rlc() {
    let mut reg = Registers::new();
    reg.f = 0b10000000;
    let n = alu_rlc(&mut reg, 0x81);
    assert_eq!(n, 0b00000011);
    assert_eq!(reg.f, 0b00010000);
}

#[test]
fn test_alu_sla() {
    let mut reg = Registers::new();
    reg.f = 0b11110000;
    let n = alu_sla(&mut reg, 0x81);
    assert_eq!(n, 0b00000010);
    assert_eq!(reg.f, 0b00010000);
}

#[test]
fn test_alu_bit() {
    let mut reg = Registers::new();
    reg.f = 0b11110000;
    alu_bit(&mut reg, 0, 0x01);
    assert_eq!(reg.f, 0b00110000);
}

#[test]
fn test_alu_set() {
    let mut r = 0x01;
    r = alu_set(r, 1);
    assert_eq!(r, 0x03);
}

#[test]
fn test_add_wraps_with_half_and_full_carry() {
    let mut reg = Registers::new();
    reg.a = 0xFF;
    alu_add(&mut reg, 0x01);
    assert_eq!(reg.a, 0x00);
    assert_eq!(reg.f, 0b10110000);
}

#[test]
fn test_sub_borrows_below_zero() {
    let mut reg = Registers::new();
    reg.a = 0x00;
    alu_sub(&mut reg, 0xFF);
    assert_eq!(reg.a, 0x01);
    assert_eq!(reg.f, 0b01110000);
}

#[test]
fn test_inc_and_dec_leave_carry_alone() {
    let mut reg = Registers::new();
    reg.set_flag(Flag::C, true);
    let n = 0x0F;
    let r = alu_inc(&mut reg, n);
    assert_eq!(r, 0x10);
    assert!(reg.get_flag(Flag::C));
    assert!(reg.get_flag(Flag::H));
    assert!(!reg.get_flag(Flag::N));
    reg.set_flag(Flag::C, false);
    let r2 = alu_dec(&mut reg, 0x10);
    assert_eq!(r2, 0x0F);
    assert!(!reg.get_flag(Flag::C));
    assert!(reg.get_flag(Flag::N));
    assert!(reg.get_flag(Flag::H));
}

#[test]
fn test_adc_carries_into_full_sum() {
    let mut reg = Registers::new();
    reg.set_flag(Flag::C, true);
    reg.a = 0x10;
    alu_adc(&mut reg, 0xFF);
    assert_eq!(reg.a, 0x10);
    assert_eq!(reg.f, 0b00110000);
}

#[test]
fn test_pair_accessors_compose_big_endian() {
    let mut reg = Registers::new();
    reg.set_bc(0x1234);
    assert_eq!(reg.b, 0x12);
    assert_eq!(reg.c, 0x34);
    assert_eq!(reg.bc(), 0x1234);
    reg.set_af(0x55FF);
    assert_eq!(reg.a, 0x55);
    assert_eq!(reg.f, 0xF0);
}
