//! The executable CPU core: fetch-decode-execute over the primary opcode
//! table, stack discipline, the delayed interrupt-enable state machine and
//! interrupt dispatch. Every method is verified against the machine model
//! in [`crate::step`].

use vstd::prelude::*;

use crate::alu::{
    alu_adc, alu_add, alu_add_hl, alu_and, alu_cp, alu_dec, alu_inc, alu_or, alu_sbc, alu_sub,
    alu_xor,
};
use crate::mmu::{read_byte, read_word, write_byte, write_word, Memory};
use crate::registers::{Flag, Registers};
use crate::step::{
    byte_at, lemma_mod16_cases, signed_add16, spec_instruction, spec_interrupt, spec_pop,
    spec_push, spec_tick, wrap16_add, wrap16_sub, Fault, ImePending, InterruptResult, Machine,
    StepResult,
};

verus! {

/// The machine-model state that a CPU and a memory view stand for.
pub open spec fn machine(c: Cpu, mem: Seq<u8>) -> Machine {
    Machine { regs: c.reg, pending: c.ime_pending, mem }
}

/// 16-bit addition wrapping modulo 65536.
fn wrap_add(a: u16, k: u16) -> (r: u16)
    ensures
        r == wrap16_add(a, k),
{
    proof {
        lemma_mod16_cases(a + k);
    }
    a.wrapping_add(k)
}

/// 16-bit subtraction wrapping modulo 65536.
fn wrap_sub(a: u16, k: u16) -> (r: u16)
    ensures
        r == wrap16_sub(a, k),
{
    proof {
        lemma_mod16_cases(a - k);
    }
    a.wrapping_sub(k)
}

/// A signed 8-bit jump displacement added to an address, wrapping modulo
/// 65536.
fn signed_add(a: u16, n: i8) -> (r: u16)
    ensures
        r == signed_add16(a, n),
{
    if n >= 0 {
        wrap_add(a, n as u16)
    } else {
        wrap_sub(a, (-(n as i16)) as u16)
    }
}

/// Popping right after pushing restores the register file exactly — in
/// particular the stack pointer returns to its pre-push value — and yields
/// the pushed word unchanged, for every starting state. Balanced sequences
/// of pushes and pops compose from this pair.
pub proof fn lemma_push_pop_round_trip(regs: Registers, mem: Seq<u8>, val: u16)
    requires
        mem.len() == 0x10000,
    ensures
        spec_pop(spec_push(regs, mem, val).0, spec_push(regs, mem, val).1).0 == regs,
        spec_pop(spec_push(regs, mem, val).0, spec_push(regs, mem, val).1).1 == val,
{
    let sp2 = wrap16_sub(regs.sp, 2);
    lemma_mod16_cases(regs.sp - 2);
    lemma_mod16_cases(sp2 + 2);
    lemma_mod16_cases(sp2 + 1);
    vstd::arithmetic::div_mod::lemma_fundamental_div_mod(val as int, 256);
}

/// The CPU: the register file plus the pending delayed interrupt-enable
/// change.
pub struct Cpu {
    pub reg: Registers,
    pub ime_pending: ImePending,
}

impl Cpu {

    /// A power-on CPU: zeroed registers, interrupts disabled, no
    /// interrupt-enable change in flight.
    pub fn new() -> (c: Cpu)
        ensures
            c.reg == (Registers {
                a: 0,
                b: 0,
                c: 0,
                d: 0,
                e: 0,
                h: 0,
                l: 0,
                f: 0,
                pc: 0,
                sp: 0,
                ime: false,
            }),
            c.ime_pending == ImePending::Idle,
    {
        Cpu { reg: Registers::new(), ime_pending: ImePending::Idle }
    }

    /// Fetches the byte at the program counter and advances the counter
    /// past it.
    fn next_byte(&mut self, mem: &Memory) -> (b: u8)
        ensures
            b == byte_at(mem@, old(self).reg.pc),
            final(self).reg == (Registers {
                pc: wrap16_add(old(self).reg.pc, 1),
                ..old(self).reg
            }),
            final(self).ime_pending == old(self).ime_pending,
    {
        let b = read_byte(self.reg.pc, mem);
        self.reg.pc = wrap_add(self.reg.pc, 1);
        b
    }

    /// Fetches the little-endian word at the program counter and advances
    /// the counter past it.
    fn next_word(&mut self, mem: &Memory) -> (w: u16)
        ensures
            w == crate::mmu::word_at(mem@, old(self).reg.pc),
            final(self).reg == (Registers {
                pc: wrap16_add(old(self).reg.pc, 2),
                ..old(self).reg
            }),
            final(self).ime_pending == old(self).ime_pending,
    {
        let w = read_word(self.reg.pc, mem);
        self.reg.pc = wrap_add(self.reg.pc, 2);
        w
    }

    /// Pushes a word: the stack pointer moves down by two (wrapping modulo
    /// 65536, with no bound checking) and the word is stored little-endian
    /// at the new stack pointer.
    pub fn push_stack(&mut self, val: u16, mem: &mut Memory)
        ensures
            final(self).reg == spec_push(old(self).reg, old(mem)@, val).0,
            final(mem)@ == spec_push(old(self).reg, old(mem)@, val).1,
            final(self).ime_pending == old(self).ime_pending,
    {
        let sp = wrap_sub(self.reg.sp, 2);
        self.reg.sp = sp;
        write_word(sp, val, mem);
    }

    /// Pops a word: the word is loaded from the stack pointer, which then
    /// moves up by two (wrapping modulo 65536).
    pub fn pop_stack(&mut self, mem: &mut Memory) -> (v: u16)
        ensures
            v == spec_pop(old(self).reg, old(mem)@).1,
            final(self).reg == spec_pop(old(self).reg, old(mem)@).0,
            final(mem)@ == old(mem)@,
            final(self).ime_pending == old(self).ime_pending,
    {
        let v = read_word(self.reg.sp, mem);
        self.reg.sp = wrap_add(self.reg.sp, 2);
        v
    }

    /// Arms the delayed interrupt-enable change with its target value and a
    /// two-tick countdown; the master-enable bit itself is untouched until
    /// the countdown commits.
    fn set_ime(&mut self, val: bool)
        ensures
            final(self).reg == old(self).reg,
            final(self).ime_pending == (ImePending::Armed { target: val, ticks: 2 }),
    {
        self.ime_pending = ImePending::Armed { target: val, ticks: 2 };
    }

    /// The interrupt stage of a tick: services the VBlank interrupt first
    /// when it is pending and enabled, at a fixed cost of 5 m-cycles, and
    /// only otherwise advances the interrupt-enable delay. A
    /// pending-and-enabled combination other than the VBlank bit alone is a
    /// fault.
    fn interrupt(&mut self, mem: &mut Memory) -> (r: Result<Option<u16>, Fault>)
        ensures
            ({
                let post = machine(*final(self), final(mem)@);
                match spec_interrupt(machine(*old(self), old(mem)@)) {
                    InterruptResult::NotTaken { m } => r == Ok::<Option<u16>, Fault>(None)
                        && post == m,
                    InterruptResult::Taken { m, cycles } => r == Ok::<Option<u16>, Fault>(
                        Some(cycles),
                    ) && post == m,
                    InterruptResult::Fault { m, fault } => r == Err::<Option<u16>, Fault>(fault)
                        && post == m,
                }
            }),
    {
        let if_flag = read_byte(0xFF0F, mem);
        let ie_flag = read_byte(0xFFFF, mem);
        if self.reg.ime && (if_flag & ie_flag) != 0 {
            self.reg.ime = false;
            if if_flag == 0x01 {
                let pc = self.reg.pc;
                self.push_stack(pc, mem);
                self.reg.pc = 0x0040;
                return Ok(Some(5));
            } else {
                return Err(Fault::UnhandledInterrupt { flags: if_flag });
            }
        }
        match self.ime_pending {
            ImePending::Idle => {},
            ImePending::Armed { target, ticks } => {
                if ticks == 2 {
                    self.ime_pending = ImePending::Armed { target, ticks: 1 };
                } else {
                    self.reg.ime = target;
                    self.ime_pending = ImePending::Idle;
                }
            },
        }
        Ok(None)
    }

    /// One whole tick: either a pending interrupt is serviced, or one
    /// instruction is fetched and executed; the result is the tick's
    /// m-cycle cost, or the fault that stopped it.
    pub fn tick(&mut self, mem: &mut Memory) -> (r: Result<u16, Fault>)
        ensures
            ({
                let post = machine(*final(self), final(mem)@);
                match spec_tick(machine(*old(self), old(mem)@)) {
                    StepResult::Step { m, cycles } => r == Ok::<u16, Fault>(cycles) && post == m,
                    StepResult::Fault { m, fault } => r == Err::<u16, Fault>(fault) && post == m,
                }
            }),
    {
        match self.interrupt(mem) {
            Err(fault) => Err(fault),
            Ok(Some(cycles)) => Ok(cycles),
            Ok(None) => self.call_instruction(mem),
        }
    }

    /// Fetches, decodes and executes one instruction of the primary opcode
    /// table, returning its m-cycle cost; an opcode with no table entry is
    /// a fault naming the address it was fetched from and the byte.
    #[verifier::rlimit(100)]
    fn call_instruction(&mut self, mem: &mut Memory) -> (r: Result<u16, Fault>)
        ensures
            ({
                let post = machine(*final(self), final(mem)@);
                match spec_instruction(machine(*old(self), old(mem)@)) {
                    StepResult::Step { m, cycles } => r == Ok::<u16, Fault>(cycles) && post == m,
                    StepResult::Fault { m, fault } => r == Err::<u16, Fault>(fault) && post == m,
                }
            }),
    {
        let addr = self.reg.pc;
        let opcode = self.next_byte(mem);
        if opcode == 0x00 {
            // NOP
            Ok(1)
        } else if opcode == 0x01 {
            // LD BC, d16
            let v = self.next_word(mem);
            self.reg.set_bc(v);
            Ok(3)
        } else if opcode == 0x02 {
            // LD (BC), A
            write_byte(self.reg.bc(), self.reg.a, mem);
            Ok(2)
        } else if opcode == 0x03 {
            // INC BC
            let v = wrap_add(self.reg.bc(), 1);
            self.reg.set_bc(v);
            Ok(2)
        } else if opcode == 0x04 {
            // INC B
            let n = self.reg.b;
            self.reg.b = alu_inc(&mut self.reg, n);
            Ok(1)
        } else if opcode == 0x05 {
            // DEC B
            let n = self.reg.b;
            self.reg.b = alu_dec(&mut self.reg, n);
            Ok(1)
        } else if opcode == 0x06 {
            // LD B, d8
            self.reg.b = self.next_byte(mem);
            Ok(2)
        } else if opcode == 0x07 {
            // RLCA
            let c = self.reg.a >> 7;
            self.reg.a = (self.reg.a << 1) | c;
            self.reg.set_flag(Flag::Z, false);
            self.reg.set_flag(Flag::N, false);
            self.reg.set_flag(Flag::H, false);
            self.reg.set_flag(Flag::C, c == 1);
            Ok(1)
        } else if opcode == 0x08 {
            // LD (a16), SP
            let adr = self.next_word(mem);
            write_word(adr, self.reg.sp, mem);
            Ok(5)
        } else if opcode == 0x09 {
            // ADD HL, BC
            let n = self.reg.bc();
            alu_add_hl(&mut self.reg, n);
            Ok(2)
        } else if opcode == 0x0A {
            // LD A, (BC)
            self.reg.a = read_byte(self.reg.bc(), mem);
            Ok(2)
        } else if opcode == 0x0B {
            // DEC BC
            let v = wrap_sub(self.reg.bc(), 1);
            self.reg.set_bc(v);
            Ok(2)
        } else if opcode == 0x0C {
            // INC C
            let n = self.reg.c;
            self.reg.c = alu_inc(&mut self.reg, n);
            Ok(1)
        } else if opcode == 0x0D {
            // DEC C
            let n = self.reg.c;
            self.reg.c = alu_dec(&mut self.reg, n);
            Ok(1)
        } else if opcode == 0x0E {
            // LD C, d8
            self.reg.c = self.next_byte(mem);
            Ok(2)
        } else if opcode == 0x10 {
            // STOP
            Ok(1)
        } else if opcode == 0x11 {
            // LD DE, d16
            let v = self.next_word(mem);
            self.reg.set_de(v);
            Ok(3)
        } else if opcode == 0x12 {
            // LD (DE), A
            write_byte(self.reg.de(), self.reg.a, mem);
            Ok(2)
        } else if opcode == 0x13 {
            // INC DE
            let v = wrap_add(self.reg.de(), 1);
            self.reg.set_de(v);
            Ok(2)
        } else if opcode == 0x14 {
            // INC D
            let n = self.reg.d;
            self.reg.d = alu_inc(&mut self.reg, n);
            Ok(1)
        } else if opcode == 0x15 {
            // DEC D
            let n = self.reg.d;
            self.reg.d = alu_dec(&mut self.reg, n);
            Ok(1)
        } else if opcode == 0x16 {
            // LD D, d8
            self.reg.d = self.next_byte(mem);
            Ok(2)
        } else if opcode == 0x18 {
            // JR r8
            let n = self.next_byte(mem) as i8;
            self.reg.pc = signed_add(self.reg.pc, n);
            Ok(3)
        } else if opcode == 0x19 {
            // ADD HL, DE
            let n = self.reg.de();
            alu_add_hl(&mut self.reg, n);
            Ok(2)
        } else if opcode == 0x1A {
            // LD A, (DE)
            self.reg.a = read_byte(self.reg.de(), mem);
            Ok(2)
        } else if opcode == 0x1D {
            // DEC E
            let n = self.reg.e;
            self.reg.e = alu_dec(&mut self.reg, n);
            Ok(1)
        } else if opcode == 0x1E {
            // LD E, d8
            self.reg.e = self.next_byte(mem);
            Ok(2)
        } else if opcode == 0x1F {
            // RRA
            let c = self.reg.get_flag_bit(Flag::C);
            self.reg.set_flag(Flag::Z, false);
            self.reg.set_flag(Flag::H, false);
            self.reg.set_flag(Flag::N, false);
            self.reg.set_flag(Flag::C, (self.reg.a & 0x01) == 0x01);
            self.reg.a = (self.reg.a >> 1) | (c << 7);
            Ok(1)
        } else if opcode == 0x20 {
            // JR NZ, r8
            if !self.reg.get_flag(Flag::Z) {
                let n = self.next_byte(mem) as i8;
                self.reg.pc = signed_add(self.reg.pc, n);
                Ok(3)
            } else {
                self.reg.pc = wrap_add(self.reg.pc, 1);
                Ok(2)
            }
        } else if opcode == 0x21 {
            // LD HL, d16
            let v = self.next_word(mem);
            self.reg.set_hl(v);
            Ok(3)
        } else if opcode == 0x22 {
            // LD (HL+), A
            write_byte(self.reg.hl(), self.reg.a, mem);
            let v = wrap_add(self.reg.hl(), 1);
            self.reg.set_hl(v);
            Ok(2)
        } else if opcode == 0x23 {
            // INC HL
            let v = wrap_add(self.reg.hl(), 1);
            self.reg.set_hl(v);
            Ok(2)
        } else if opcode == 0x25 {
            // DEC H
            let n = self.reg.h;
            self.reg.h = alu_dec(&mut self.reg, n);
            Ok(1)
        } else if opcode == 0x28 {
            // JR Z, r8
            if self.reg.get_flag(Flag::Z) {
                let n = self.next_byte(mem) as i8;
                self.reg.pc = signed_add(self.reg.pc, n);
                Ok(3)
            } else {
                self.reg.pc = wrap_add(self.reg.pc, 1);
                Ok(2)
            }
        } else if opcode == 0x29 {
            // ADD HL, HL
            let n = self.reg.hl();
            alu_add_hl(&mut self.reg, n);
            Ok(2)
        } else if opcode == 0x2A {
            // LD A, (HL+)
            self.reg.a = read_byte(self.reg.hl(), mem);
            let v = wrap_add(self.reg.hl(), 1);
            self.reg.set_hl(v);
            Ok(2)
        } else if opcode == 0x2C {
            // INC L
            let n = self.reg.l;
            self.reg.l = alu_inc(&mut self.reg, n);
            Ok(1)
        } else if opcode == 0x2F {
            // CPL
            self.reg.a = !self.reg.a;
            self.reg.set_flag(Flag::N, true);
            self.reg.set_flag(Flag::H, true);
            Ok(1)
        } else if opcode == 0x31 {
            // LD SP, d16
            self.reg.sp = self.next_word(mem);
            Ok(3)
        } else if opcode == 0x32 {
            // LD (HL-), A
            write_byte(self.reg.hl(), self.reg.a, mem);
            let v = wrap_sub(self.reg.hl(), 1);
            self.reg.set_hl(v);
            Ok(2)
        } else if opcode == 0x34 {
            // INC (HL): increments the byte at HL in place; carry is kept.
            let adr = self.reg.hl();
            let val = read_byte(adr, mem);
            let r = alu_inc(&mut self.reg, val);
            write_byte(adr, r, mem);
            Ok(3)
        } else if opcode == 0x36 {
            // LD (HL), d8: stores the operand byte at HL, touching no flag.
            let n = self.next_byte(mem);
            write_byte(self.reg.hl(), n, mem);
            Ok(2)
        } else if opcode == 0x38 {
            // JR C, r8: the displacement byte is consumed either way.
            if self.reg.get_flag(Flag::C) {
                let n = self.next_byte(mem) as i8;
                self.reg.pc = signed_add(self.reg.pc, n);
            } else {
                self.reg.pc = wrap_add(self.reg.pc, 1);
            }
            Ok(2)
        } else if opcode == 0x3C {
            // INC A
            let n = self.reg.a;
            self.reg.a = alu_inc(&mut self.reg, n);
            Ok(1)
        } else if opcode == 0x3D {
            // DEC A
            let n = self.reg.a;
            self.reg.a = alu_dec(&mut self.reg, n);
            Ok(1)
        } else if opcode == 0x3E {
            // LD A, d8
            self.reg.a = self.next_byte(mem);
            Ok(2)
        } else if opcode == 0x41 {
            // LD B, C
            self.reg.b = self.reg.c;
            Ok(1)
        } else if opcode == 0x47 {
            // LD B, A
            self.reg.b = self.reg.a;
            Ok(1)
        } else if opcode == 0x4F {
            // LD C, A
            self.reg.c = self.reg.a;
            Ok(1)
        } else if opcode == 0x56 {
            // LD D, (HL)
            self.reg.d = read_byte(self.reg.hl(), mem);
            Ok(2)
        } else if opcode == 0x5E {
            // LD E, (HL)
            self.reg.e = read_byte(self.reg.hl(), mem);
            Ok(2)
        } else if opcode == 0x5F {
            // LD E, A
            self.reg.e = self.reg.a;
            Ok(1)
        } else if opcode == 0x67 {
            // LD H, A
            self.reg.h = self.reg.a;
            Ok(1)
        } else if opcode == 0x6F {
            // LD L, A
            self.reg.l = self.reg.a;
            Ok(1)
        } else if opcode == 0x77 {
            // LD (HL), A
            write_byte(self.reg.hl(), self.reg.a, mem);
            Ok(2)
        } else if opcode == 0x78 {
            // LD A, B
            self.reg.a = self.reg.b;
            Ok(1)
        } else if opcode == 0x79 {
            // LD A, C
            self.reg.a = self.reg.c;
            Ok(1)
        } else if opcode == 0x7B {
            // LD A, E
            self.reg.a = self.reg.e;
            Ok(1)
        } else if opcode == 0x7C {
            // LD A, H
            self.reg.a = self.reg.h;
            Ok(1)
        } else if opcode == 0x7D {
            // LD A, L
            self.reg.a = self.reg.l;
            Ok(1)
        } else if opcode == 0x7E {
            // LD A, (HL)
            self.reg.a = read_byte(self.reg.hl(), mem);
            Ok(2)
        } else if opcode == 0x7F {
            // LD A, A
            Ok(1)
        } else if opcode == 0x80 {
            // ADD A, B
            let n = self.reg.b;
            alu_add(&mut self.reg, n);
            Ok(1)
        } else if opcode == 0x85 {
            // ADD A, L
            let n = self.reg.l;
            alu_add(&mut self.reg, n);
            Ok(1)
        } else if opcode == 0x87 {
            // AND of the accumulator with itself
            let n = self.reg.a;
            alu_and(&mut self.reg, n);
            Ok(1)
        } else if opcode == 0x89 {
            // ADC A, C
            let n = self.reg.c;
            alu_adc(&mut self.reg, n);
            Ok(1)
        } else if opcode == 0x8A {
            // ADD A, D
            let n = self.reg.d;
            alu_add(&mut self.reg, n);
            Ok(1)
        } else if opcode == 0x90 {
            // SUB B
            let n = self.reg.b;
            alu_sub(&mut self.reg, n);
            Ok(1)
        } else if opcode == 0x93 {
            // SUB E
            let n = self.reg.e;
            alu_sub(&mut self.reg, n);
            Ok(1)
        } else if opcode == 0x99 {
            // SBC A, C
            let n = self.reg.c;
            alu_sbc(&mut self.reg, n);
            Ok(1)
        } else if opcode == 0xA1 {
            // AND C
            let n = self.reg.c;
            alu_and(&mut self.reg, n);
            Ok(1)
        } else if opcode == 0xA7 {
            // AND A
            let n = self.reg.a;
            alu_and(&mut self.reg, n);
            Ok(1)
        } else if opcode == 0xA9 {
            // XOR C
            let n = self.reg.c;
            alu_xor(&mut self.reg, n);
            Ok(1)
        } else if opcode == 0xAF {
            // XOR A
            let n = self.reg.a;
            alu_xor(&mut self.reg, n);
            Ok(1)
        } else if opcode == 0xB0 {
            // OR B
            let n = self.reg.b;
            alu_or(&mut self.reg, n);
            Ok(1)
        } else if opcode == 0xB1 {
            // OR C
            let n = self.reg.c;
            alu_or(&mut self.reg, n);
            Ok(1)
        } else if opcode == 0xBF {
            // CP A
            let n = self.reg.a;
            alu_cp(&mut self.reg, n);
            Ok(1)
        } else if opcode == 0xC0 {
            // RET NZ: not taken, the program counter stays just past the
            // opcode.
            if !self.reg.get_flag(Flag::Z) {
                self.reg.pc = self.pop_stack(mem);
                Ok(5)
            } else {
                Ok(2)
            }
        } else if opcode == 0xC1 {
            // POP BC
            let v = self.pop_stack(mem);
            self.reg.set_bc(v);
            Ok(3)
        } else if opcode == 0xC3 {
            // JP a16
            self.reg.pc = self.next_word(mem);
            Ok(4)
        } else if opcode == 0xC5 {
            // PUSH BC
            let v = self.reg.bc();
            self.push_stack(v, mem);
            Ok(4)
        } else if opcode == 0xC6 {
            // ADD A, d8
            let n = self.next_byte(mem);
            alu_add(&mut self.reg, n);
            Ok(2)
        } else if opcode == 0xC8 {
            // RET Z: not taken, the program counter stays just past the
            // opcode.
            if self.reg.get_flag(Flag::Z) {
                self.reg.pc = self.pop_stack(mem);
                Ok(5)
            } else {
                Ok(2)
            }
        } else if opcode == 0xC9 {
            // RET
            self.reg.pc = self.pop_stack(mem);
            Ok(4)
        } else if opcode == 0xCB {
            // extended page
            let op2 = self.next_byte(mem);
            self.cb_prefix(op2, mem)
        } else if opcode == 0xCD {
            // CALL a16: the return address is pushed before the target word
            // is read.
            let ret = wrap_add(self.reg.pc, 2);
            self.push_stack(ret, mem);
            self.reg.pc = self.next_word(mem);
            Ok(6)
        } else if opcode == 0xD1 {
            // POP DE
            let v = self.pop_stack(mem);
            self.reg.set_de(v);
            Ok(3)
        } else if opcode == 0xD2 {
            // JP NC, a16: jumps when carry is clear; the operand is
            // consumed either way.
            if !self.reg.get_flag(Flag::C) {
                self.reg.pc = self.next_word(mem);
                Ok(4)
            } else {
                self.reg.pc = wrap_add(self.reg.pc, 2);
                Ok(3)
            }
        } else if opcode == 0xD5 {
            // PUSH DE
            let v = self.reg.de();
            self.push_stack(v, mem);
            Ok(4)
        } else if opcode == 0xD9 {
            // RETI: returns and arms the delayed interrupt enable.
            self.reg.pc = self.pop_stack(mem);
            self.set_ime(true);
            Ok(4)
        } else if opcode == 0xDE {
            // SBC A, d8
            let n = self.next_byte(mem);
            alu_sbc(&mut self.reg, n);
            Ok(2)
        } else if opcode == 0xE0 {
            // LDH (a8), A
            let n = self.next_byte(mem);
            write_byte(0xFF00 + (n as u16), self.reg.a, mem);
            Ok(3)
        } else if opcode == 0xE1 {
            // POP HL
            let v = self.pop_stack(mem);
            self.reg.set_hl(v);
            Ok(3)
        } else if opcode == 0xE2 {
            // LD (C), A
            write_byte(0xFF00 + (self.reg.c as u16), self.reg.a, mem);
            Ok(2)
        } else if opcode == 0xE5 {
            // PUSH HL
            let v = self.reg.hl();
            self.push_stack(v, mem);
            Ok(4)
        } else if opcode == 0xE6 {
            // AND d8
            let n = self.next_byte(mem);
            alu_and(&mut self.reg, n);
            Ok(2)
        } else if opcode == 0xE9 {
            // JP HL
            self.reg.pc = self.reg.hl();
            Ok(1)
        } else if opcode == 0xEA {
            // LD (a16), A
            let adr = self.next_word(mem);
            write_byte(adr, self.reg.a, mem);
            Ok(4)
        } else if opcode == 0xEF {
            // RST 28H
            let pc = self.reg.pc;
            self.push_stack(pc, mem);
            self.reg.pc = 0x0028;
            Ok(4)
        } else if opcode == 0xF0 {
            // LDH A, (a8)
            let n = self.next_byte(mem);
            self.reg.a = read_byte(0xFF00 + (n as u16), mem);
            Ok(3)
        } else if opcode == 0xF1 {
            // POP AF
            let v = self.pop_stack(mem);
            self.reg.set_af(v);
            Ok(3)
        } else if opcode == 0xF3 {
            // DI
            self.set_ime(false);
            Ok(1)
        } else if opcode == 0xF5 {
            // PUSH AF
            let v = self.reg.af();
            self.push_stack(v, mem);
            Ok(4)
        } else if opcode == 0xFA {
            // LD A, (a16)
            let adr = self.next_word(mem);
            self.reg.a = read_byte(adr, mem);
            Ok(4)
        } else if opcode == 0xFB {
            // EI
            self.set_ime(true);
            Ok(1)
        } else if opcode == 0xFE {
            // CP d8
            let n = self.next_byte(mem);
            alu_cp(&mut self.reg, n);
            Ok(2)
        } else {
            Err(Fault::UnknownOpcode { addr, opcode })
        }
    }
}

} // verus!
