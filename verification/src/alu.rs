//! The arithmetic/flag unit: pure 8-bit and 16-bit operations that compute a
//! result and the exact flag assignment it produces.
//!
//! Every operation's contract pins both the stored result and every bit of
//! the flag byte, so the flag laws (carry out of bit 7, half-carry out of
//! bit 3, the carry flag untouched by increments and decrements) are part of
//! the public specification.

use vstd::prelude::*;

use crate::registers::{
    flag_set, high_byte, lemma_pack_flags, lemma_with_flag, low_byte, pack_flags, with_flag, Flag,
    Flags, Registers,
};

verus! {

/// Bit 3 carry of an 8-bit addition: whether the low nibbles alone overflow.
pub open spec fn half_carry_add(a: u8, n: u8) -> bool {
    (a & 0xF) + (n & 0xF) > 0xF
}

/// Bit 3 borrow of an 8-bit subtraction: whether the low nibble of the
/// subtrahend exceeds that of the minuend.
pub open spec fn half_carry_sub(a: u8, n: u8) -> bool {
    (a & 0xF) < (n & 0xF)
}

proof fn lemma_low_nibble_le(x: u8)
    by (bit_vector)
    ensures
        x & 0x0F <= 0xF,
{
}

proof fn lemma_half_carry_bit(a: u8, n: u8)
    by (bit_vector)
    ensures
        ((((a & 0x0F) + (n & 0x0F)) as u8) & 0x10 == 0x10) == ((a & 0x0F) + (n & 0x0F) > 0xF),
{
}

/// The wrapped sum of two bytes together with its half-carry and carry bits.
pub fn carry_add(a: u8, n: u8) -> (t: (u8, bool, bool))
    ensures
        t.0 == (a + n) % 256,
        t.1 == half_carry_add(a, n),
        t.2 == (a + n > 0xFF),
{
    proof {
        lemma_low_nibble_le(a);
        lemma_low_nibble_le(n);
        lemma_half_carry_bit(a, n);
    }
    let r = a.wrapping_add(n);
    let h = ((a & 0x0F) + (n & 0x0F)) & 0x10 == 0x10;
    let c = (a as u16) + (n as u16) > 0xFF;
    (r, h, c)
}

/// The wrapped difference of two bytes together with its half-borrow and
/// borrow bits.
pub fn carry_sub(a: u8, n: u8) -> (t: (u8, bool, bool))
    ensures
        t.0 == (a - n) % 256,
        t.1 == half_carry_sub(a, n),
        t.2 == (a < n),
{
    let r = a.wrapping_sub(n);
    let h = (a & 0x0F) < (n & 0x0F);
    let c = a < n;
    (r, h, c)
}

/// The register file after `ADD A, n`.
pub open spec fn spec_alu_add(r: Registers, n: u8) -> Registers {
    Registers {
        a: ((r.a + n) % 256) as u8,
        f: pack_flags(
            Flags {
                zero: (r.a + n) % 256 == 0,
                subtract: false,
                half_carry: half_carry_add(r.a, n),
                carry: r.a + n > 0xFF,
            },
        ),
        ..r
    }
}

/// `ADD A, n`: for all bytes, the accumulator becomes `(a + n) mod 256`;
/// the zero flag holds exactly when that result is zero, the carry flag
/// exactly when `a + n > 255`, and the half-carry flag exactly when the low
/// nibbles alone overflow.
pub fn alu_add(reg: &mut Registers, n: u8)
    ensures
        *final(reg) == spec_alu_add(*old(reg), n),
        final(reg).a == (old(reg).a + n) % 256,
        flag_set(final(reg).f, Flag::Z) == (final(reg).a == 0),
        !flag_set(final(reg).f, Flag::N),
        flag_set(final(reg).f, Flag::H) == half_carry_add(old(reg).a, n),
        flag_set(final(reg).f, Flag::C) == (old(reg).a + n > 0xFF),
{
    let (r, h, c) = carry_add(reg.a, n);
    reg.set_flags(Flags { zero: r == 0, subtract: false, half_carry: h, carry: c });
    reg.a = r;
    proof {
        lemma_pack_flags(
            Flags {
                zero: (old(reg).a + n) % 256 == 0,
                subtract: false,
                half_carry: half_carry_add(old(reg).a, n),
                carry: old(reg).a + n > 0xFF,
            },
        );
    }
}

/// The carry flag of a register file as a 0/1 value.
pub open spec fn carry_in(r: Registers) -> u8 {
    if flag_set(r.f, Flag::C) {
        1u8
    } else {
        0u8
    }
}

/// The register file after `ADC A, n`: the addition takes the carry flag as
/// a third summand, and both carries are computed over the full sum.
pub open spec fn spec_alu_adc(r: Registers, n: u8) -> Registers {
    Registers {
        a: ((r.a + n + carry_in(r)) % 256) as u8,
        f: pack_flags(
            Flags {
                zero: (r.a + n + carry_in(r)) % 256 == 0,
                subtract: false,
                half_carry: (r.a & 0xF) + (n & 0xF) + carry_in(r) > 0xF,
                carry: r.a + n + carry_in(r) > 0xFF,
            },
        ),
        ..r
    }
}

/// `ADC A, n`: add with the incoming carry as a third summand.
pub fn alu_adc(reg: &mut Registers, n: u8)
    ensures
        *final(reg) == spec_alu_adc(*old(reg), n),
        final(reg).a == (old(reg).a + n + carry_in(*old(reg))) % 256,
        flag_set(final(reg).f, Flag::Z) == (final(reg).a == 0),
        !flag_set(final(reg).f, Flag::N),
        flag_set(final(reg).f, Flag::C) == (old(reg).a + n + carry_in(*old(reg)) > 0xFF),
{
    proof {
        lemma_low_nibble_le(reg.a);
        lemma_low_nibble_le(n);
    }
    let cin = reg.get_flag_bit(Flag::C);
    let sum: u16 = (reg.a as u16) + (n as u16) + (cin as u16);
    let r: u8 = (sum % 256) as u8;
    let h = (reg.a & 0x0F) + (n & 0x0F) + cin > 0x0F;
    let c = sum > 0xFF;
    reg.set_flags(Flags { zero: r == 0, subtract: false, half_carry: h, carry: c });
    reg.a = r;
    proof {
        lemma_pack_flags(
            Flags {
                zero: (old(reg).a + n + carry_in(*old(reg))) % 256 == 0,
                subtract: false,
                half_carry: (old(reg).a & 0xF) + (n & 0xF) + carry_in(*old(reg)) > 0xF,
                carry: old(reg).a + n + carry_in(*old(reg)) > 0xFF,
            },
        );
    }
}

/// The register file after `SUB A, n`.
pub open spec fn spec_alu_sub(r: Registers, n: u8) -> Registers {
    Registers {
        a: ((r.a - n) % 256) as u8,
        f: pack_flags(
            Flags {
                zero: (r.a - n) % 256 == 0,
                subtract: true,
                half_carry: half_carry_sub(r.a, n),
                carry: r.a < n,
            },
        ),
        ..r
    }
}

/// `SUB A, n`: for all bytes, the accumulator becomes `(a - n) mod 256`;
/// the carry flag holds exactly when `a < n`, and the half-carry flag
/// exactly when the low nibble of `n` exceeds the low nibble of `a`.
pub fn alu_sub(reg: &mut Registers, n: u8)
    ensures
        *final(reg) == spec_alu_sub(*old(reg), n),
        final(reg).a == (old(reg).a - n) % 256,
        flag_set(final(reg).f, Flag::Z) == (final(reg).a == 0),
        flag_set(final(reg).f, Flag::N),
        flag_set(final(reg).f, Flag::H) == half_carry_sub(old(reg).a, n),
        flag_set(final(reg).f, Flag::C) == (old(reg).a < n),
{
    let (r, h, c) = carry_sub(reg.a, n);
    reg.set_flags(Flags { zero: r == 0, subtract: true, half_carry: h, carry: c });
    reg.a = r;
    proof {
        lemma_pack_flags(
            Flags {
                zero: (old(reg).a - n) % 256 == 0,
                subtract: true,
                half_carry: half_carry_sub(old(reg).a, n),
                carry: old(reg).a < n,
            },
        );
    }
}

/// The register file after `SBC A, n`: the subtraction takes the carry flag
/// as an extra borrow, and both borrows are computed over the full
/// difference.
pub open spec fn spec_alu_sbc(r: Registers, n: u8) -> Registers {
    Registers {
        a: ((r.a - n - carry_in(r)) % 256) as u8,
        f: pack_flags(
            Flags {
                zero: (r.a - n - carry_in(r)) % 256 == 0,
                subtract: true,
                half_carry: (r.a & 0xF) < (n & 0xF) + carry_in(r),
                carry: (r.a as int) < n + carry_in(r),
            },
        ),
        ..r
    }
}

/// `SBC A, n`: subtract with the incoming carry as an extra borrow.
pub fn alu_sbc(reg: &mut Registers, n: u8)
    ensures
        *final(reg) == spec_alu_sbc(*old(reg), n),
        final(reg).a == (old(reg).a - n - carry_in(*old(reg))) % 256,
        flag_set(final(reg).f, Flag::Z) == (final(reg).a == 0),
        flag_set(final(reg).f, Flag::N),
        flag_set(final(reg).f, Flag::C) == ((old(reg).a as int) < n + carry_in(*old(reg))),
{
    proof {
        lemma_low_nibble_le(reg.a);
        lemma_low_nibble_le(n);
    }
    let cin = reg.get_flag_bit(Flag::C);
    let r: u8 = reg.a.wrapping_sub(n).wrapping_sub(cin);
    let h = (reg.a & 0x0F) < (n & 0x0F) + cin;
    let c = (reg.a as u16) < (n as u16) + (cin as u16);
    reg.set_flags(Flags { zero: r == 0, subtract: true, half_carry: h, carry: c });
    reg.a = r;
    proof {
        lemma_pack_flags(
            Flags {
                zero: (old(reg).a - n - carry_in(*old(reg))) % 256 == 0,
                subtract: true,
                half_carry: (old(reg).a & 0xF) < (n & 0xF) + carry_in(*old(reg)),
                carry: (old(reg).a as int) < n + carry_in(*old(reg)),
            },
        );
    }
}

/// The register file after `AND n`: the half-carry flag is set
/// unconditionally, carry cleared.
pub open spec fn spec_alu_and(r: Registers, n: u8) -> Registers {
    Registers {
        a: r.a & n,
        f: pack_flags(
            Flags { zero: r.a & n == 0, subtract: false, half_carry: true, carry: false },
        ),
        ..r
    }
}

/// `AND n`.
pub fn alu_and(reg: &mut Registers, n: u8)
    ensures
        *final(reg) == spec_alu_and(*old(reg), n),
        final(reg).a == (old(reg).a & n),
        flag_set(final(reg).f, Flag::Z) == (final(reg).a == 0),
        !flag_set(final(reg).f, Flag::N),
        flag_set(final(reg).f, Flag::H),
        !flag_set(final(reg).f, Flag::C),
{
    reg.a = reg.a & n;
    let z = reg.a == 0;
    reg.set_flags(Flags { zero: z, subtract: false, half_carry: true, carry: false });
    proof {
        lemma_pack_flags(
            Flags {
                zero: old(reg).a & n == 0,
                subtract: false,
                half_carry: true,
                carry: false,
            },
        );
    }
}

/// The register file after `OR n`: half-carry and carry cleared.
pub open spec fn spec_alu_or(r: Registers, n: u8) -> Registers {
    Registers {
        a: r.a | n,
        f: pack_flags(
            Flags { zero: r.a | n == 0, subtract: false, half_carry: false, carry: false },
        ),
        ..r
    }
}

/// `OR n`.
pub fn alu_or(reg: &mut Registers, n: u8)
    ensures
        *final(reg) == spec_alu_or(*old(reg), n),
        final(reg).a == (old(reg).a | n),
        flag_set(final(reg).f, Flag::Z) == (final(reg).a == 0),
        !flag_set(final(reg).f, Flag::N),
        !flag_set(final(reg).f, Flag::H),
        !flag_set(final(reg).f, Flag::C),
{
    reg.a = reg.a | n;
    let z = reg.a == 0;
    reg.set_flags(Flags { zero: z, subtract: false, half_carry: false, carry: false });
    proof {
        lemma_pack_flags(
            Flags {
                zero: old(reg).a | n == 0,
                subtract: false,
                half_carry: false,
                carry: false,
            },
        );
    }
}

/// The register file after `XOR n`: half-carry and carry cleared.
pub open spec fn spec_alu_xor(r: Registers, n: u8) -> Registers {
    Registers {
        a: r.a ^ n,
        f: pack_flags(
            Flags { zero: r.a ^ n == 0, subtract: false, half_carry: false, carry: false },
        ),
        ..r
    }
}

/// `XOR n`.
pub fn alu_xor(reg: &mut Registers, n: u8)
    ensures
        *final(reg) == spec_alu_xor(*old(reg), n),
        final(reg).a == (old(reg).a ^ n),
        flag_set(final(reg).f, Flag::Z) == (final(reg).a == 0),
        !flag_set(final(reg).f, Flag::N),
        !flag_set(final(reg).f, Flag::H),
        !flag_set(final(reg).f, Flag::C),
{
    reg.a = reg.a ^ n;
    let z = reg.a == 0;
    reg.set_flags(Flags { zero: z, subtract: false, half_carry: false, carry: false });
    proof {
        lemma_pack_flags(
            Flags {
                zero: old(reg).a ^ n == 0,
                subtract: false,
                half_carry: false,
                carry: false,
            },
        );
    }
}

/// The register file after `CP n`: the flags of a subtraction, the
/// accumulator untouched.
pub open spec fn spec_alu_cp(r: Registers, n: u8) -> Registers {
    Registers {
        f: pack_flags(
            Flags {
                zero: (r.a - n) % 256 == 0,
                subtract: true,
                half_carry: half_carry_sub(r.a, n),
                carry: r.a < n,
            },
        ),
        ..r
    }
}

/// `CP n`: compare by computing the subtraction flags without storing the
/// result.
pub fn alu_cp(reg: &mut Registers, n: u8)
    ensures
        *final(reg) == spec_alu_cp(*old(reg), n),
        final(reg).a == old(reg).a,
        flag_set(final(reg).f, Flag::Z) == ((old(reg).a - n) % 256 == 0),
        flag_set(final(reg).f, Flag::N),
        flag_set(final(reg).f, Flag::H) == half_carry_sub(old(reg).a, n),
        flag_set(final(reg).f, Flag::C) == (old(reg).a < n),
{
    let (r, h, c) = carry_sub(reg.a, n);
    reg.set_flags(Flags { zero: r == 0, subtract: true, half_carry: h, carry: c });
    proof {
        lemma_pack_flags(
            Flags {
                zero: (old(reg).a - n) % 256 == 0,
                subtract: true,
                half_carry: half_carry_sub(old(reg).a, n),
                carry: old(reg).a < n,
            },
        );
    }
}

/// The flag byte after `INC n`: zero, subtract and half-carry are written,
/// the carry flag keeps its old value.
pub open spec fn spec_inc_f(f: u8, n: u8) -> u8 {
    with_flag(
        with_flag(with_flag(f, Flag::Z, (n + 1) % 256 == 0), Flag::N, false),
        Flag::H,
        half_carry_add(n, 1),
    )
}

/// `INC n`: returns `(n + 1) mod 256` and writes zero, subtract and
/// half-carry; the carry flag is never changed.
pub fn alu_inc(reg: &mut Registers, n: u8) -> (r: u8)
    ensures
        r == (n + 1) % 256,
        *final(reg) == (Registers { f: spec_inc_f(old(reg).f, n), ..*old(reg) }),
        flag_set(final(reg).f, Flag::Z) == (r == 0),
        !flag_set(final(reg).f, Flag::N),
        flag_set(final(reg).f, Flag::H) == half_carry_add(n, 1),
        flag_set(final(reg).f, Flag::C) == flag_set(old(reg).f, Flag::C),
{
    let (r, h, _) = carry_add(n, 1);
    reg.set_flag(Flag::Z, r == 0);
    reg.set_flag(Flag::N, false);
    reg.set_flag(Flag::H, h);
    proof {
        let f0 = old(reg).f;
        let f1 = with_flag(f0, Flag::Z, (n + 1) % 256 == 0);
        let f2 = with_flag(f1, Flag::N, false);
        lemma_with_flag(f0, Flag::Z, (n + 1) % 256 == 0);
        lemma_with_flag(f1, Flag::N, false);
        lemma_with_flag(f2, Flag::H, half_carry_add(n, 1));
    }
    r
}

/// The flag byte after `DEC n`: zero, subtract and half-carry are written,
/// the carry flag keeps its old value.
pub open spec fn spec_dec_f(f: u8, n: u8) -> u8 {
    with_flag(
        with_flag(with_flag(f, Flag::Z, (n - 1) % 256 == 0), Flag::N, true),
        Flag::H,
        half_carry_sub(n, 1),
    )
}

/// `DEC n`: returns `(n - 1) mod 256` and writes zero, subtract and
/// half-carry; the carry flag is never changed.
pub fn alu_dec(reg: &mut Registers, n: u8) -> (r: u8)
    ensures
        r == (n - 1) % 256,
        *final(reg) == (Registers { f: spec_dec_f(old(reg).f, n), ..*old(reg) }),
        flag_set(final(reg).f, Flag::Z) == (r == 0),
        flag_set(final(reg).f, Flag::N),
        flag_set(final(reg).f, Flag::H) == half_carry_sub(n, 1),
        flag_set(final(reg).f, Flag::C) == flag_set(old(reg).f, Flag::C),
{
    let (r, h, _) = carry_sub(n, 1);
    reg.set_flag(Flag::Z, r == 0);
    reg.set_flag(Flag::N, true);
    reg.set_flag(Flag::H, h);
    proof {
        let f0 = old(reg).f;
        let f1 = with_flag(f0, Flag::Z, (n - 1) % 256 == 0);
        let f2 = with_flag(f1, Flag::N, true);
        lemma_with_flag(f0, Flag::Z, (n - 1) % 256 == 0);
        lemma_with_flag(f1, Flag::N, true);
        lemma_with_flag(f2, Flag::H, half_carry_sub(n, 1));
    }
    r
}

/// The flag byte after `ADD HL, n`: subtract cleared, half-carry from the
/// bit-11 boundary (computed with the historical `0x07FF` mask), carry from
/// bit 15; the zero flag keeps its old value.
pub open spec fn spec_add_hl_f(f: u8, hl: u16, n: u16) -> u8 {
    with_flag(
        with_flag(
            with_flag(f, Flag::N, false),
            Flag::H,
            (hl & 0x07FF) + (n & 0x07FF) > 0x07FF,
        ),
        Flag::C,
        hl + n > 0xFFFF,
    )
}

/// The register file after `ADD HL, n`.
pub open spec fn spec_alu_add_hl(r: Registers, n: u16) -> Registers {
    Registers {
        h: high_byte(((r.spec_hl() + n) % 0x10000) as u16),
        l: low_byte(((r.spec_hl() + n) % 0x10000) as u16),
        f: spec_add_hl_f(r.f, r.spec_hl(), n),
        ..r
    }
}

proof fn lemma_mask_11_le(x: u16)
    by (bit_vector)
    ensures
        x & 0x07FF <= 0x07FF,
{
}

/// `ADD HL, n`: the HL pair becomes `(hl + n) mod 65536`; subtract is
/// cleared, half-carry comes from the bit-11 boundary and carry from bit
/// 15; the zero flag is never changed.
pub fn alu_add_hl(reg: &mut Registers, n: u16)
    ensures
        *final(reg) == spec_alu_add_hl(*old(reg), n),
        final(reg).spec_hl() == (old(reg).spec_hl() + n) % 0x10000,
        !flag_set(final(reg).f, Flag::N),
        flag_set(final(reg).f, Flag::H) == ((old(reg).spec_hl() & 0x07FF) + (n & 0x07FF)
            > 0x07FF),
        flag_set(final(reg).f, Flag::C) == (old(reg).spec_hl() + n > 0xFFFF),
        flag_set(final(reg).f, Flag::Z) == flag_set(old(reg).f, Flag::Z),
{
    proof {
        lemma_mask_11_le(reg.spec_hl());
        lemma_mask_11_le(n);
    }
    let hl = reg.hl();
    let r = hl.wrapping_add(n);
    reg.set_flag(Flag::N, false);
    reg.set_flag(Flag::H, (hl & 0x07FF) + (n & 0x07FF) > 0x07FF);
    reg.set_flag(Flag::C, ((hl as u32) + (n as u32)) > 0xFFFF);
    reg.set_hl(r);
    proof {
        let f0 = old(reg).f;
        let f1 = with_flag(f0, Flag::N, false);
        let f2 = with_flag(f1, Flag::H, (old(reg).spec_hl() & 0x07FF) + (n & 0x07FF) > 0x07FF);
        lemma_with_flag(f0, Flag::N, false);
        lemma_with_flag(f1, Flag::H, (old(reg).spec_hl() & 0x07FF) + (n & 0x07FF) > 0x07FF);
        lemma_with_flag(f2, Flag::C, old(reg).spec_hl() + n > 0xFFFF);
    }
}

/// The high and low nibbles of a byte exchanged.
pub open spec fn spec_swap(n: u8) -> u8 {
    (n & 0xF0) >> 4 | (n & 0x0F) << 4
}

/// `SWAP n`: returns the byte with its nibbles exchanged; zero from the
/// result, every other flag cleared.
pub fn alu_swap(reg: &mut Registers, n: u8) -> (r: u8)
    ensures
        r == spec_swap(n),
        *final(reg) == (Registers {
            f: pack_flags(
                Flags {
                    zero: spec_swap(n) == 0,
                    subtract: false,
                    half_carry: false,
                    carry: false,
                },
            ),
            ..*old(reg)
        }),
        flag_set(final(reg).f, Flag::Z) == (r == 0),
{
    let r = (n & 0xF0) >> 4 | (n & 0x0F) << 4;
    reg.set_flags(Flags { zero: r == 0, subtract: false, half_carry: false, carry: false });
    proof {
        lemma_pack_flags(
            Flags { zero: spec_swap(n) == 0, subtract: false, half_carry: false, carry: false },
        );
    }
    r
}

/// A byte rotated left by one, bit 7 entering at bit 0.
pub open spec fn spec_rlc(n: u8) -> u8 {
    n << 1 | n >> 7
}

/// `RLC n` (extended page): returns the byte rotated left by one; zero from
/// the result, carry from the bit that rotated out, subtract and half-carry
/// cleared. Distinct from the primary-page accumulator rotate, which always
/// clears the zero flag.
pub fn alu_rlc(reg: &mut Registers, n: u8) -> (r: u8)
    ensures
        r == spec_rlc(n),
        *final(reg) == (Registers {
            f: pack_flags(
                Flags {
                    zero: spec_rlc(n) == 0,
                    subtract: false,
                    half_carry: false,
                    carry: n & 0x80 == 0x80,
                },
            ),
            ..*old(reg)
        }),
        flag_set(final(reg).f, Flag::Z) == (r == 0),
        flag_set(final(reg).f, Flag::C) == (n & 0x80 == 0x80),
{
    let r = n << 1 | n >> 7;
    reg.set_flags(
        Flags { zero: r == 0, subtract: false, half_carry: false, carry: n & 0x80 == 0x80 },
    );
    proof {
        lemma_pack_flags(
            Flags {
                zero: spec_rlc(n) == 0,
                subtract: false,
                half_carry: false,
                carry: n & 0x80 == 0x80,
            },
        );
    }
    r
}

/// A byte shifted left by one, bit 0 cleared.
pub open spec fn spec_sla(n: u8) -> u8 {
    (n << 1) & 0xFE
}

/// `SLA n` (extended page): returns the byte shifted left by one; zero from
/// the result, carry from the bit that shifted out, subtract and half-carry
/// cleared.
pub fn alu_sla(reg: &mut Registers, n: u8) -> (r: u8)
    ensures
        r == spec_sla(n),
        *final(reg) == (Registers {
            f: pack_flags(
                Flags {
                    zero: spec_sla(n) == 0,
                    subtract: false,
                    half_carry: false,
                    carry: n & 0x80 == 0x80,
                },
            ),
            ..*old(reg)
        }),
        flag_set(final(reg).f, Flag::Z) == (r == 0),
        flag_set(final(reg).f, Flag::C) == (n & 0x80 == 0x80),
{
    let r = (n << 1) & 0xFE;
    reg.set_flags(
        Flags { zero: r == 0, subtract: false, half_carry: false, carry: n & 0x80 == 0x80 },
    );
    proof {
        lemma_pack_flags(
            Flags {
                zero: spec_sla(n) == 0,
                subtract: false,
                half_carry: false,
                carry: n & 0x80 == 0x80,
            },
        );
    }
    r
}

/// The flag byte after `BIT b, r`: zero holds exactly when the tested bit
/// is clear, subtract is cleared, half-carry set; carry keeps its old value.
pub open spec fn spec_bit_f(f: u8, b: u8, r: u8) -> u8 {
    with_flag(with_flag(with_flag(f, Flag::Z, r & (1u8 << b) == 0), Flag::N, false), Flag::H, true)
}

/// `BIT b, r`: tests one bit of a byte. The zero flag holds exactly when
/// the bit is clear; the carry flag is never changed.
pub fn alu_bit(reg: &mut Registers, b: u8, r: u8)
    requires
        b < 8,
    ensures
        *final(reg) == (Registers { f: spec_bit_f(old(reg).f, b, r), ..*old(reg) }),
        flag_set(final(reg).f, Flag::Z) == (r & (1u8 << b) == 0),
        !flag_set(final(reg).f, Flag::N),
        flag_set(final(reg).f, Flag::H),
        flag_set(final(reg).f, Flag::C) == flag_set(old(reg).f, Flag::C),
{
    reg.set_flag(Flag::Z, r & (1u8 << b) == 0);
    reg.set_flag(Flag::N, false);
    reg.set_flag(Flag::H, true);
    proof {
        let f0 = old(reg).f;
        let f1 = with_flag(f0, Flag::Z, r & (1u8 << b) == 0);
        let f2 = with_flag(f1, Flag::N, false);
        lemma_with_flag(f0, Flag::Z, r & (1u8 << b) == 0);
        lemma_with_flag(f1, Flag::N, false);
        lemma_with_flag(f2, Flag::H, true);
    }
}

/// `SET b, r`: returns the byte with bit `b` forced to 1; no flag is
/// touched.
pub fn alu_set(r: u8, b: u8) -> (s: u8)
    requires
        b < 8,
    ensures
        s == r | (1u8 << b),
{
    r | (1u8 << b)
}

} // verus!
