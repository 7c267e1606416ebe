//! The mathematical model of one machine step: a ghost `Machine` record and
//! spec functions giving the exact semantics of interrupt dispatch, the
//! interrupt-enable delay, every implemented opcode of the primary and
//! extended pages, and the composition of all three into one tick.
//!
//! The executable core in [`crate::cpu`] and [`crate::cb`] is verified
//! against these functions clause for clause.

use vstd::prelude::*;

use crate::alu::{
    spec_alu_adc, spec_alu_add, spec_alu_add_hl, spec_alu_and, spec_alu_cp, spec_alu_or,
    spec_alu_sbc, spec_alu_sub, spec_alu_xor, spec_bit_f, spec_dec_f, spec_inc_f, spec_rlc,
    spec_sla, spec_swap,
};
use crate::mmu::{word_at, word_write};
use crate::alu::carry_in;
use crate::registers::{flag_set, high_byte, low_byte, pack_flags, with_flag, Flag, Flags,
    Registers};

verus! {

/// The delayed interrupt-master-enable change: either nothing is in flight,
/// or one change is armed with its target value and a countdown of ticks
/// (2 when freshly armed, 1 after one tick has passed).
#[derive(Clone, Copy, PartialEq, Eq, Structural, Debug)]
pub enum ImePending {
    Idle,
    Armed { target: bool, ticks: u8 },
}

/// A fatal condition: executing continues past none of these, because an
/// unmodeled opcode or interrupt would silently desynchronize cycle counts
/// and flags from correct hardware behaviour.
#[derive(Clone, Copy, PartialEq, Eq, Structural, Debug)]
pub enum Fault {
    /// An opcode byte of the primary page with no table entry, with the
    /// address it was fetched from.
    UnknownOpcode { addr: u16, opcode: u8 },
    /// An opcode byte of the extended (bit-manipulation) page with no table
    /// entry.
    UnknownExtendedOpcode { opcode: u8 },
    /// A pending-and-enabled interrupt combination other than the single
    /// implemented VBlank bit.
    UnhandledInterrupt { flags: u8 },
}

/// The whole machine state: the register file, the pending
/// interrupt-enable change, and all 65536 bytes of memory.
#[verifier::ext_equal]
pub struct Machine {
    pub regs: Registers,
    pub pending: ImePending,
    pub mem: Seq<u8>,
}

/// The outcome of executing one instruction (or servicing one interrupt):
/// either the next machine state with the m-cycle cost, or a fault together
/// with the state at the moment of the fault.
#[verifier::ext_equal]
pub enum StepResult {
    Step { m: Machine, cycles: u16 },
    Fault { m: Machine, fault: Fault },
}

/// The outcome of the interrupt stage of a tick.
#[verifier::ext_equal]
pub enum InterruptResult {
    NotTaken { m: Machine },
    Taken { m: Machine, cycles: u16 },
    Fault { m: Machine, fault: Fault },
}

/// 16-bit addition wrapping modulo 65536.
pub open spec fn wrap16_add(a: u16, k: u16) -> u16 {
    ((a + k) % 0x10000) as u16
}

/// 16-bit subtraction wrapping modulo 65536.
pub open spec fn wrap16_sub(a: u16, k: u16) -> u16 {
    ((a - k) % 0x10000) as u16
}

/// A signed 8-bit displacement added to a 16-bit address, wrapping modulo
/// 65536.
pub open spec fn signed_add16(a: u16, n: i8) -> u16 {
    ((a + n) % 0x10000) as u16
}

/// Euclidean remainder modulo 65536 written out over the three intervals a
/// wrapped 16-bit sum or difference can fall in.
pub proof fn lemma_mod16_cases(x: int)
    requires
        -0x10000 <= x < 0x20000,
    ensures
        x % 0x10000 == if x < 0 {
            x + 0x10000
        } else if x < 0x10000 {
            x
        } else {
            x - 0x10000
        },
{
    if x < 0 {
        vstd::arithmetic::div_mod::lemma_fundamental_div_mod_converse_mod(
            x,
            0x10000,
            -1,
            x + 0x10000,
        );
    } else if x < 0x10000 {
        vstd::arithmetic::div_mod::lemma_fundamental_div_mod_converse_mod(x, 0x10000, 0, x);
    } else {
        vstd::arithmetic::div_mod::lemma_fundamental_div_mod_converse_mod(
            x,
            0x10000,
            1,
            x - 0x10000,
        );
    }
}

/// The byte stored at an address.
pub open spec fn byte_at(mem: Seq<u8>, adr: u16) -> u8 {
    mem[adr as int]
}

/// The register file and memory after pushing a word: the stack pointer
/// moves down by two (wrapping) and the word is stored little-endian at the
/// new stack pointer.
pub open spec fn spec_push(regs: Registers, mem: Seq<u8>, val: u16) -> (Registers, Seq<u8>) {
    let sp = wrap16_sub(regs.sp, 2);
    (Registers { sp, ..regs }, word_write(mem, sp, val))
}

/// The register file after popping a word, together with the word: the word
/// is loaded from the stack pointer, which then moves up by two (wrapping).
pub open spec fn spec_pop(regs: Registers, mem: Seq<u8>) -> (Registers, u16) {
    (Registers { sp: wrap16_add(regs.sp, 2), ..regs }, word_at(mem, regs.sp))
}

/// One tick of the interrupt-enable delay: a freshly armed change counts
/// down to one; a change with one tick left commits its target to the
/// master-enable bit and disarms.
pub open spec fn advance_pending(p: ImePending, ime: bool) -> (ImePending, bool) {
    match p {
        ImePending::Idle => (ImePending::Idle, ime),
        ImePending::Armed { target, ticks } => if ticks == 2 {
            (ImePending::Armed { target, ticks: 1 }, ime)
        } else {
            (ImePending::Idle, target)
        },
    }
}

/// The interrupt stage of a tick. If the master enable is set and some
/// pending interrupt is enabled, the interrupt is serviced at once: the
/// master enable is cleared, and if the pending set is exactly the VBlank
/// bit the current program counter is pushed and control moves to the
/// VBlank vector 0x0040 at a fixed cost of 5 m-cycles; any other pending
/// combination is a fault. Only otherwise does the interrupt-enable delay
/// advance one step.
pub open spec fn spec_interrupt(m: Machine) -> InterruptResult {
    let if_flag = byte_at(m.mem, 0xFF0F);
    let ie_flag = byte_at(m.mem, 0xFFFF);
    if m.regs.ime && (if_flag & ie_flag) != 0 {
        let regs2 = Registers { ime: false, ..m.regs };
        if if_flag == 0x01 {
            let (regs3, mem3) = spec_push(regs2, m.mem, regs2.pc);
            InterruptResult::Taken {
                m: Machine { regs: Registers { pc: 0x0040, ..regs3 }, pending: m.pending, mem: mem3 },
                cycles: 5,
            }
        } else {
            InterruptResult::Fault {
                m: Machine { regs: regs2, pending: m.pending, mem: m.mem },
                fault: Fault::UnhandledInterrupt { flags: if_flag },
            }
        }
    } else {
        let (pending, ime) = advance_pending(m.pending, m.regs.ime);
        InterruptResult::NotTaken {
            m: Machine { regs: Registers { ime, ..m.regs }, pending, mem: m.mem },
        }
    }
}

/// A step that changes only the register file.
pub open spec fn step_regs(m: Machine, regs: Registers, cycles: u16) -> StepResult {
    StepResult::Step { m: Machine { regs, ..m }, cycles }
}

/// A step that changes the register file and memory.
pub open spec fn step_full(m: Machine, regs: Registers, mem: Seq<u8>, cycles: u16) -> StepResult {
    StepResult::Step { m: Machine { regs, pending: m.pending, mem }, cycles }
}

/// The flag byte after the primary-page accumulator rotate `RLCA`: zero,
/// subtract and half-carry are cleared regardless of the result, carry takes
/// bit 7 of the old accumulator.
pub open spec fn spec_rlca_f(f: u8, a: u8) -> u8 {
    with_flag(
        with_flag(with_flag(with_flag(f, Flag::Z, false), Flag::N, false), Flag::H, false),
        Flag::C,
        a >> 7 == 1,
    )
}

/// The flag byte after the primary-page accumulator rotate `RRA`: zero,
/// half-carry and subtract are cleared regardless of the result, carry takes
/// bit 0 of the old accumulator.
pub open spec fn spec_rra_f(f: u8, a: u8) -> u8 {
    with_flag(
        with_flag(with_flag(with_flag(f, Flag::Z, false), Flag::H, false), Flag::N, false),
        Flag::C,
        a & 0x01 == 0x01,
    )
}

/// The semantics of the extended (bit-manipulation) opcode page. The
/// register file of `m` already points past the extended opcode byte.
pub open spec fn spec_cb(m: Machine, opcode: u8) -> StepResult {
    let r = m.regs;
    let mem = m.mem;
    if opcode == 0x06 {
        // RLC (HL)
        let b = byte_at(mem, r.spec_hl());
        let regs = Registers {
            f: pack_flags(
                Flags {
                    zero: spec_rlc(b) == 0,
                    subtract: false,
                    half_carry: false,
                    carry: b & 0x80 == 0x80,
                },
            ),
            ..r
        };
        step_full(m, regs, mem.update(r.spec_hl() as int, spec_rlc(b)), 4)
    } else if opcode == 0x27 {
        // SLA A
        let regs = Registers {
            a: spec_sla(r.a),
            f: pack_flags(
                Flags {
                    zero: spec_sla(r.a) == 0,
                    subtract: false,
                    half_carry: false,
                    carry: r.a & 0x80 == 0x80,
                },
            ),
            ..r
        };
        step_regs(m, regs, 2)
    } else if opcode == 0x37 {
        // SWAP A
        let regs = Registers {
            a: spec_swap(r.a),
            f: pack_flags(
                Flags {
                    zero: spec_swap(r.a) == 0,
                    subtract: false,
                    half_carry: false,
                    carry: false,
                },
            ),
            ..r
        };
        step_regs(m, regs, 2)
    } else if opcode == 0x41 {
        // BIT 0, C
        step_regs(m, Registers { f: spec_bit_f(r.f, 0, r.c), ..r }, 2)
    } else if opcode == 0x6F {
        // BIT 5, A
        step_regs(m, Registers { f: spec_bit_f(r.f, 5, r.a), ..r }, 2)
    } else if opcode == 0x77 {
        // BIT 6, A
        step_regs(m, Registers { f: spec_bit_f(r.f, 6, r.a), ..r }, 2)
    } else if opcode == 0x87 {
        // RES 0, A
        step_regs(m, Registers { a: r.a & 0xFE, ..r }, 2)
    } else if opcode == 0xFE {
        // SET 7, (HL)
        step_full(m, r, mem.update(r.spec_hl() as int, byte_at(mem, r.spec_hl()) | 0x80), 4)
    } else {
        StepResult::Fault { m, fault: Fault::UnknownExtendedOpcode { opcode } }
    }
}

/// The semantics of one fetched instruction: the opcode byte is read at the
/// program counter, the counter moves past it, and the table entry for the
/// opcode runs; an opcode with no entry is a fault reporting the address it
/// was fetched from.
pub open spec fn spec_instruction(m: Machine) -> StepResult {
    let op = byte_at(m.mem, m.regs.pc);
    let r = Registers { pc: wrap16_add(m.regs.pc, 1), ..m.regs };
    let mem = m.mem;
    if op == 0x00 {
        // NOP
        step_regs(m, r, 1)
    } else if op == 0x01 {
        // LD BC, d16
        let v = word_at(mem, r.pc);
        step_regs(
            m,
            Registers { b: high_byte(v), c: low_byte(v), pc: wrap16_add(r.pc, 2), ..r },
            3,
        )
    } else if op == 0x02 {
        // LD (BC), A
        step_full(m, r, mem.update(r.spec_bc() as int, r.a), 2)
    } else if op == 0x03 {
        // INC BC
        let v = wrap16_add(r.spec_bc(), 1);
        step_regs(m, Registers { b: high_byte(v), c: low_byte(v), ..r }, 2)
    } else if op == 0x04 {
        // INC B
        step_regs(
            m,
            Registers { b: ((r.b + 1) % 256) as u8, f: spec_inc_f(r.f, r.b), ..r },
            1,
        )
    } else if op == 0x05 {
        // DEC B
        step_regs(
            m,
            Registers { b: ((r.b - 1) % 256) as u8, f: spec_dec_f(r.f, r.b), ..r },
            1,
        )
    } else if op == 0x06 {
        // LD B, d8
        step_regs(m, Registers { b: byte_at(mem, r.pc), pc: wrap16_add(r.pc, 1), ..r }, 2)
    } else if op == 0x07 {
        // RLCA
        step_regs(
            m,
            Registers { a: (r.a << 1) | (r.a >> 7), f: spec_rlca_f(r.f, r.a), ..r },
            1,
        )
    } else if op == 0x08 {
        // LD (a16), SP
        let adr = word_at(mem, r.pc);
        step_full(
            m,
            Registers { pc: wrap16_add(r.pc, 2), ..r },
            word_write(mem, adr, r.sp),
            5,
        )
    } else if op == 0x09 {
        // ADD HL, BC
        step_regs(m, spec_alu_add_hl(r, r.spec_bc()), 2)
    } else if op == 0x0A {
        // LD A, (BC)
        step_regs(m, Registers { a: byte_at(mem, r.spec_bc()), ..r }, 2)
    } else if op == 0x0B {
        // DEC BC
        let v = wrap16_sub(r.spec_bc(), 1);
        step_regs(m, Registers { b: high_byte(v), c: low_byte(v), ..r }, 2)
    } else if op == 0x0C {
        // INC C
        step_regs(
            m,
            Registers { c: ((r.c + 1) % 256) as u8, f: spec_inc_f(r.f, r.c), ..r },
            1,
        )
    } else if op == 0x0D {
        // DEC C
        step_regs(
            m,
            Registers { c: ((r.c - 1) % 256) as u8, f: spec_dec_f(r.f, r.c), ..r },
            1,
        )
    } else if op == 0x0E {
        // LD C, d8
        step_regs(m, Registers { c: byte_at(mem, r.pc), pc: wrap16_add(r.pc, 1), ..r }, 2)
    } else if op == 0x10 {
        // STOP
        step_regs(m, r, 1)
    } else if op == 0x11 {
        // LD DE, d16
        let v = word_at(mem, r.pc);
        step_regs(
            m,
            Registers { d: high_byte(v), e: low_byte(v), pc: wrap16_add(r.pc, 2), ..r },
            3,
        )
    } else if op == 0x12 {
        // LD (DE), A
        step_full(m, r, mem.update(r.spec_de() as int, r.a), 2)
    } else if op == 0x13 {
        // INC DE
        let v = wrap16_add(r.spec_de(), 1);
        step_regs(m, Registers { d: high_byte(v), e: low_byte(v), ..r }, 2)
    } else if op == 0x14 {
        // INC D
        step_regs(
            m,
            Registers { d: ((r.d + 1) % 256) as u8, f: spec_inc_f(r.f, r.d), ..r },
            1,
        )
    } else if op == 0x15 {
        // DEC D
        step_regs(
            m,
            Registers { d: ((r.d - 1) % 256) as u8, f: spec_dec_f(r.f, r.d), ..r },
            1,
        )
    } else if op == 0x16 {
        // LD D, d8
        step_regs(m, Registers { d: byte_at(mem, r.pc), pc: wrap16_add(r.pc, 1), ..r }, 2)
    } else if op == 0x18 {
        // JR r8
        let n = byte_at(mem, r.pc) as i8;
        step_regs(m, Registers { pc: signed_add16(wrap16_add(r.pc, 1), n), ..r }, 3)
    } else if op == 0x19 {
        // ADD HL, DE
        step_regs(m, spec_alu_add_hl(r, r.spec_de()), 2)
    } else if op == 0x1A {
        // LD A, (DE)
        step_regs(m, Registers { a: byte_at(mem, r.spec_de()), ..r }, 2)
    } else if op == 0x1D {
        // DEC E
        step_regs(
            m,
            Registers { e: ((r.e - 1) % 256) as u8, f: spec_dec_f(r.f, r.e), ..r },
            1,
        )
    } else if op == 0x1E {
        // LD E, d8
        step_regs(m, Registers { e: byte_at(mem, r.pc), pc: wrap16_add(r.pc, 1), ..r }, 2)
    } else if op == 0x1F {
        // RRA
        step_regs(
            m,
            Registers {
                a: (r.a >> 1) | (carry_in(r) << 7),
                f: spec_rra_f(r.f, r.a),
                ..r
            },
            1,
        )
    } else if op == 0x20 {
        // JR NZ, r8
        if !flag_set(r.f, Flag::Z) {
            let n = byte_at(mem, r.pc) as i8;
            step_regs(m, Registers { pc: signed_add16(wrap16_add(r.pc, 1), n), ..r }, 3)
        } else {
            step_regs(m, Registers { pc: wrap16_add(r.pc, 1), ..r }, 2)
        }
    } else if op == 0x21 {
        // LD HL, d16
        let v = word_at(mem, r.pc);
        step_regs(
            m,
            Registers { h: high_byte(v), l: low_byte(v), pc: wrap16_add(r.pc, 2), ..r },
            3,
        )
    } else if op == 0x22 {
        // LD (HL+), A
        let v = wrap16_add(r.spec_hl(), 1);
        step_full(
            m,
            Registers { h: high_byte(v), l: low_byte(v), ..r },
            mem.update(r.spec_hl() as int, r.a),
            2,
        )
    } else if op == 0x23 {
        // INC HL
        let v = wrap16_add(r.spec_hl(), 1);
        step_regs(m, Registers { h: high_byte(v), l: low_byte(v), ..r }, 2)
    } else if op == 0x25 {
        // DEC H
        step_regs(
            m,
            Registers { h: ((r.h - 1) % 256) as u8, f: spec_dec_f(r.f, r.h), ..r },
            1,
        )
    } else if op == 0x28 {
        // JR Z, r8
        if flag_set(r.f, Flag::Z) {
            let n = byte_at(mem, r.pc) as i8;
            step_regs(m, Registers { pc: signed_add16(wrap16_add(r.pc, 1), n), ..r }, 3)
        } else {
            step_regs(m, Registers { pc: wrap16_add(r.pc, 1), ..r }, 2)
        }
    } else if op == 0x29 {
        // ADD HL, HL
        step_regs(m, spec_alu_add_hl(r, r.spec_hl()), 2)
    } else if op == 0x2A {
        // LD A, (HL+)
        let v = wrap16_add(r.spec_hl(), 1);
        step_regs(
            m,
            Registers { a: byte_at(mem, r.spec_hl()), h: high_byte(v), l: low_byte(v), ..r },
            2,
        )
    } else if op == 0x2C {
        // INC L
        step_regs(
            m,
            Registers { l: ((r.l + 1) % 256) as u8, f: spec_inc_f(r.f, r.l), ..r },
            1,
        )
    } else if op == 0x2F {
        // CPL
        step_regs(
            m,
            Registers {
                a: !r.a,
                f: with_flag(with_flag(r.f, Flag::N, true), Flag::H, true),
                ..r
            },
            1,
        )
    } else if op == 0x31 {
        // LD SP, d16
        step_regs(
            m,
            Registers { sp: word_at(mem, r.pc), pc: wrap16_add(r.pc, 2), ..r },
            3,
        )
    } else if op == 0x32 {
        // LD (HL-), A
        let v = wrap16_sub(r.spec_hl(), 1);
        step_full(
            m,
            Registers { h: high_byte(v), l: low_byte(v), ..r },
            mem.update(r.spec_hl() as int, r.a),
            2,
        )
    } else if op == 0x34 {
        // INC (HL): increments the byte at HL in place; zero, subtract and
        // half-carry as for an increment, carry kept.
        let v = byte_at(mem, r.spec_hl());
        step_full(
            m,
            Registers { f: spec_inc_f(r.f, v), ..r },
            mem.update(r.spec_hl() as int, ((v + 1) % 256) as u8),
            3,
        )
    } else if op == 0x36 {
        // LD (HL), d8: stores the operand byte at HL; no flag is touched.
        let n = byte_at(mem, r.pc);
        step_full(
            m,
            Registers { pc: wrap16_add(r.pc, 1), ..r },
            mem.update(r.spec_hl() as int, n),
            2,
        )
    } else if op == 0x38 {
        // JR C, r8: the displacement byte is consumed whether or not the
        // branch is taken.
        if flag_set(r.f, Flag::C) {
            let n = byte_at(mem, r.pc) as i8;
            step_regs(m, Registers { pc: signed_add16(wrap16_add(r.pc, 1), n), ..r }, 2)
        } else {
            step_regs(m, Registers { pc: wrap16_add(r.pc, 1), ..r }, 2)
        }
    } else if op == 0x3C {
        // INC A
        step_regs(
            m,
            Registers { a: ((r.a + 1) % 256) as u8, f: spec_inc_f(r.f, r.a), ..r },
            1,
        )
    } else if op == 0x3D {
        // DEC A
        step_regs(
            m,
            Registers { a: ((r.a - 1) % 256) as u8, f: spec_dec_f(r.f, r.a), ..r },
            1,
        )
    } else if op == 0x3E {
        // LD A, d8
        step_regs(m, Registers { a: byte_at(mem, r.pc), pc: wrap16_add(r.pc, 1), ..r }, 2)
    } else if op == 0x41 {
        // LD B, C
        step_regs(m, Registers { b: r.c, ..r }, 1)
    } else if op == 0x47 {
        // LD B, A
        step_regs(m, Registers { b: r.a, ..r }, 1)
    } else if op == 0x4F {
        // LD C, A
        step_regs(m, Registers { c: r.a, ..r }, 1)
    } else if op == 0x56 {
        // LD D, (HL)
        step_regs(m, Registers { d: byte_at(mem, r.spec_hl()), ..r }, 2)
    } else if op == 0x5E {
        // LD E, (HL)
        step_regs(m, Registers { e: byte_at(mem, r.spec_hl()), ..r }, 2)
    } else if op == 0x5F {
        // LD E, A
        step_regs(m, Registers { e: r.a, ..r }, 1)
    } else if op == 0x67 {
        // LD H, A
        step_regs(m, Registers { h: r.a, ..r }, 1)
    } else if op == 0x6F {
        // LD L, A
        step_regs(m, Registers { l: r.a, ..r }, 1)
    } else if op == 0x77 {
        // LD (HL), A
        step_full(m, r, mem.update(r.spec_hl() as int, r.a), 2)
    } else if op == 0x78 {
        // LD A, B
        step_regs(m, Registers { a: r.b, ..r }, 1)
    } else if op == 0x79 {
        // LD A, C
        step_regs(m, Registers { a: r.c, ..r }, 1)
    } else if op == 0x7B {
        // LD A, E
        step_regs(m, Registers { a: r.e, ..r }, 1)
    } else if op == 0x7C {
        // LD A, H
        step_regs(m, Registers { a: r.h, ..r }, 1)
    } else if op == 0x7D {
        // LD A, L
        step_regs(m, Registers { a: r.l, ..r }, 1)
    } else if op == 0x7E {
        // LD A, (HL)
        step_regs(m, Registers { a: byte_at(mem, r.spec_hl()), ..r }, 2)
    } else if op == 0x7F {
        // LD A, A
        step_regs(m, r, 1)
    } else if op == 0x80 {
        // ADD A, B
        step_regs(m, spec_alu_add(r, r.b), 1)
    } else if op == 0x85 {
        // ADD A, L
        step_regs(m, spec_alu_add(r, r.l), 1)
    } else if op == 0x87 {
        // AND of the accumulator with itself
        step_regs(m, spec_alu_and(r, r.a), 1)
    } else if op == 0x89 {
        // ADC A, C
        step_regs(m, spec_alu_adc(r, r.c), 1)
    } else if op == 0x8A {
        // ADD A, D
        step_regs(m, spec_alu_add(r, r.d), 1)
    } else if op == 0x90 {
        // SUB B
        step_regs(m, spec_alu_sub(r, r.b), 1)
    } else if op == 0x93 {
        // SUB E
        step_regs(m, spec_alu_sub(r, r.e), 1)
    } else if op == 0x99 {
        // SBC A, C
        step_regs(m, spec_alu_sbc(r, r.c), 1)
    } else if op == 0xA1 {
        // AND C
        step_regs(m, spec_alu_and(r, r.c), 1)
    } else if op == 0xA7 {
        // AND A
        step_regs(m, spec_alu_and(r, r.a), 1)
    } else if op == 0xA9 {
        // XOR C
        step_regs(m, spec_alu_xor(r, r.c), 1)
    } else if op == 0xAF {
        // XOR A
        step_regs(m, spec_alu_xor(r, r.a), 1)
    } else if op == 0xB0 {
        // OR B
        step_regs(m, spec_alu_or(r, r.b), 1)
    } else if op == 0xB1 {
        // OR C
        step_regs(m, spec_alu_or(r, r.c), 1)
    } else if op == 0xBF {
        // CP A
        step_regs(m, spec_alu_cp(r, r.a), 1)
    } else if op == 0xC0 {
        // RET NZ: not taken, the program counter stays just past the opcode.
        if !flag_set(r.f, Flag::Z) {
            let (r1, v) = spec_pop(r, mem);
            step_regs(m, Registers { pc: v, ..r1 }, 5)
        } else {
            step_regs(m, r, 2)
        }
    } else if op == 0xC1 {
        // POP BC
        let (r1, v) = spec_pop(r, mem);
        step_regs(m, Registers { b: high_byte(v), c: low_byte(v), ..r1 }, 3)
    } else if op == 0xC3 {
        // JP a16
        step_regs(m, Registers { pc: word_at(mem, r.pc), ..r }, 4)
    } else if op == 0xC5 {
        // PUSH BC
        let (r1, mem1) = spec_push(r, mem, r.spec_bc());
        step_full(m, r1, mem1, 4)
    } else if op == 0xC6 {
        // ADD A, d8
        let n = byte_at(mem, r.pc);
        step_regs(m, spec_alu_add(Registers { pc: wrap16_add(r.pc, 1), ..r }, n), 2)
    } else if op == 0xC8 {
        // RET Z: not taken, the program counter stays just past the opcode.
        if flag_set(r.f, Flag::Z) {
            let (r1, v) = spec_pop(r, mem);
            step_regs(m, Registers { pc: v, ..r1 }, 5)
        } else {
            step_regs(m, r, 2)
        }
    } else if op == 0xC9 {
        // RET
        let (r1, v) = spec_pop(r, mem);
        step_regs(m, Registers { pc: v, ..r1 }, 4)
    } else if op == 0xCB {
        // extended page
        let op2 = byte_at(mem, r.pc);
        spec_cb(
            Machine { regs: Registers { pc: wrap16_add(r.pc, 1), ..r }, ..m },
            op2,
        )
    } else if op == 0xCD {
        // CALL a16: the return address is pushed before the target word is
        // read, so a push that lands on the operand bytes is read back.
        let (r1, mem1) = spec_push(r, mem, wrap16_add(r.pc, 2));
        step_full(m, Registers { pc: word_at(mem1, r.pc), ..r1 }, mem1, 6)
    } else if op == 0xD1 {
        // POP DE
        let (r1, v) = spec_pop(r, mem);
        step_regs(m, Registers { d: high_byte(v), e: low_byte(v), ..r1 }, 3)
    } else if op == 0xD2 {
        // JP NC, a16: jumps when the carry flag is clear; the operand is
        // consumed whether or not the branch is taken.
        if !flag_set(r.f, Flag::C) {
            step_regs(m, Registers { pc: word_at(mem, r.pc), ..r }, 4)
        } else {
            step_regs(m, Registers { pc: wrap16_add(r.pc, 2), ..r }, 3)
        }
    } else if op == 0xD5 {
        // PUSH DE
        let (r1, mem1) = spec_push(r, mem, r.spec_de());
        step_full(m, r1, mem1, 4)
    } else if op == 0xD9 {
        // RETI: returns and arms the delayed interrupt enable, like EI.
        let (r1, v) = spec_pop(r, mem);
        StepResult::Step {
            m: Machine {
                regs: Registers { pc: v, ..r1 },
                pending: ImePending::Armed { target: true, ticks: 2 },
                mem,
            },
            cycles: 4,
        }
    } else if op == 0xDE {
        // SBC A, d8
        let n = byte_at(mem, r.pc);
        step_regs(m, spec_alu_sbc(Registers { pc: wrap16_add(r.pc, 1), ..r }, n), 2)
    } else if op == 0xE0 {
        // LDH (a8), A
        let n = byte_at(mem, r.pc);
        step_full(
            m,
            Registers { pc: wrap16_add(r.pc, 1), ..r },
            mem.update((0xFF00 + n) as int, r.a),
            3,
        )
    } else if op == 0xE1 {
        // POP HL
        let (r1, v) = spec_pop(r, mem);
        step_regs(m, Registers { h: high_byte(v), l: low_byte(v), ..r1 }, 3)
    } else if op == 0xE2 {
        // LD (C), A
        step_full(m, r, mem.update((0xFF00 + r.c) as int, r.a), 2)
    } else if op == 0xE5 {
        // PUSH HL
        let (r1, mem1) = spec_push(r, mem, r.spec_hl());
        step_full(m, r1, mem1, 4)
    } else if op == 0xE6 {
        // AND d8
        let n = byte_at(mem, r.pc);
        step_regs(m, spec_alu_and(Registers { pc: wrap16_add(r.pc, 1), ..r }, n), 2)
    } else if op == 0xE9 {
        // JP HL
        step_regs(m, Registers { pc: r.spec_hl(), ..r }, 1)
    } else if op == 0xEA {
        // LD (a16), A
        let adr = word_at(mem, r.pc);
        step_full(
            m,
            Registers { pc: wrap16_add(r.pc, 2), ..r },
            mem.update(adr as int, r.a),
            4,
        )
    } else if op == 0xEF {
        // RST 28H
        let (r1, mem1) = spec_push(r, mem, r.pc);
        step_full(m, Registers { pc: 0x0028, ..r1 }, mem1, 4)
    } else if op == 0xF0 {
        // LDH A, (a8)
        let n = byte_at(mem, r.pc);
        step_regs(
            m,
            Registers {
                a: byte_at(mem, (0xFF00 + n) as u16),
                pc: wrap16_add(r.pc, 1),
                ..r
            },
            3,
        )
    } else if op == 0xF1 {
        // POP AF: the low nibble of the flag byte stays zero.
        let (r1, v) = spec_pop(r, mem);
        step_regs(m, Registers { a: high_byte(v), f: low_byte(v) & 0xF0, ..r1 }, 3)
    } else if op == 0xF3 {
        // DI: arms the delayed disable.
        StepResult::Step {
            m: Machine {
                regs: r,
                pending: ImePending::Armed { target: false, ticks: 2 },
                mem,
            },
            cycles: 1,
        }
    } else if op == 0xF5 {
        // PUSH AF
        let (r1, mem1) = spec_push(r, mem, r.spec_af());
        step_full(m, r1, mem1, 4)
    } else if op == 0xFA {
        // LD A, (a16)
        let adr = word_at(mem, r.pc);
        step_regs(
            m,
            Registers { a: byte_at(mem, adr), pc: wrap16_add(r.pc, 2), ..r },
            4,
        )
    } else if op == 0xFB {
        // EI: arms the delayed enable.
        StepResult::Step {
            m: Machine {
                regs: r,
                pending: ImePending::Armed { target: true, ticks: 2 },
                mem,
            },
            cycles: 1,
        }
    } else if op == 0xFE {
        // CP d8
        let n = byte_at(mem, r.pc);
        step_regs(m, spec_alu_cp(Registers { pc: wrap16_add(r.pc, 1), ..r }, n), 2)
    } else {
        StepResult::Fault {
            m: Machine { regs: r, ..m },
            fault: Fault::UnknownOpcode { addr: m.regs.pc, opcode: op },
        }
    }
}

proof fn lemma_high_nibble_mask(x: u8)
    by (bit_vector)
    ensures
        (x & 0xF0) & 0x0F == 0,
{
}

/// The low nibble of the flag byte is always zero: every successful tick
/// keeps the invariant, because every write to the flag byte either packs a
/// fresh flag assignment, forces single flag bits, or masks a popped byte
/// to its high nibble.
#[verifier::rlimit(100)]
pub proof fn lemma_tick_keeps_flag_nibble(m: Machine, m2: Machine, cycles: u16)
    requires
        m.regs.f & 0x0F == 0,
        spec_tick(m) == (StepResult::Step { m: m2, cycles }),
    ensures
        m2.regs.f & 0x0F == 0,
{
    assert forall|fl: Flags| (#[trigger] pack_flags(fl)) & 0x0F == 0 by {
        crate::registers::lemma_pack_flags(fl);
    }
    assert forall|fb: u8, fl: Flag, v: bool| (#[trigger] with_flag(fb, fl, v)) & 0x0F == fb
        & 0x0F by {
        crate::registers::lemma_with_flag(fb, fl, v);
    }
    assert forall|x: u8| ((#[trigger] (x & 0xF0)) & 0x0F) == 0 by {
        lemma_high_nibble_mask(x);
    }
}

/// Issuing the enable-interrupts opcode changes nothing immediately: the
/// tick costs one m-cycle, moves the program counter past the opcode, and
/// only arms a two-tick delayed change; the master enable stays false.
pub proof fn lemma_ime_enable_arms(m: Machine)
    requires
        byte_at(m.mem, m.regs.pc) == 0xFB,
        m.pending == ImePending::Idle,
        !m.regs.ime,
    ensures
        spec_tick(m) == (StepResult::Step {
            m: Machine {
                regs: Registers { pc: wrap16_add(m.regs.pc, 1), ..m.regs },
                pending: ImePending::Armed { target: true, ticks: 2 },
                mem: m.mem,
            },
            cycles: 1,
        }),
{
}

/// During the one instruction that follows enable-interrupts, the master
/// enable is still false: whatever supported instruction executes (other
/// than the three that re-arm the delay), the tick leaves the master enable
/// false and the armed change with one tick remaining. No interrupt can be
/// dispatched during either tick, since the dispatch check precedes the
/// commit.
pub proof fn lemma_ime_false_during_next_instruction(m: Machine, m2: Machine, cycles: u16)
    requires
        m.pending == (ImePending::Armed { target: true, ticks: 2 }),
        !m.regs.ime,
        spec_tick(m) == (StepResult::Step { m: m2, cycles }),
        byte_at(m.mem, m.regs.pc) != 0xF3,
        byte_at(m.mem, m.regs.pc) != 0xFB,
        byte_at(m.mem, m.regs.pc) != 0xD9,
    ensures
        !m2.regs.ime,
        m2.pending == (ImePending::Armed { target: true, ticks: 1 }),
{
}

/// From the tick after that onward the master enable is true: the delay
/// advance of the next tick, which follows that tick's dispatch check,
/// commits the armed change before the instruction runs.
pub proof fn lemma_ime_commits(ime: bool)
    ensures
        advance_pending(ImePending::Armed { target: true, ticks: 1 }, ime) == (
            ImePending::Idle,
            true,
        ),
{
}

/// One whole tick: either the interrupt stage services an interrupt (or
/// faults), or one instruction executes.
pub open spec fn spec_tick(m: Machine) -> StepResult {
    match spec_interrupt(m) {
        InterruptResult::Taken { m, cycles } => StepResult::Step { m, cycles },
        InterruptResult::Fault { m, fault } => StepResult::Fault { m, fault },
        InterruptResult::NotTaken { m } => spec_instruction(m),
    }
}

} // verus!
