//! The register file: eight 8-bit registers addressable individually and as
//! big-endian 16-bit pairs, the 16-bit program counter and stack pointer, the
//! packed flag byte, and the interrupt master enable bit.

use vstd::prelude::*;

verus! {

/// One of the four condition flags packed into the high nibble of `f`:
/// zero, subtract, half-carry and carry.
#[derive(Clone, Copy, PartialEq, Eq, Structural, Debug)]
pub enum Flag {
    Z,
    N,
    H,
    C,
}

/// A full flag assignment, handed as one named record to [`Registers::set_flags`]
/// so that the four flags can never be transposed at a call site.
#[derive(Clone, Copy, PartialEq, Eq, Structural, Debug)]
pub struct Flags {
    pub zero: bool,
    pub subtract: bool,
    pub half_carry: bool,
    pub carry: bool,
}

/// The bit that a flag occupies inside the flag byte.
pub open spec fn flag_mask(fl: Flag) -> u8 {
    match fl {
        Flag::Z => 0x80,
        Flag::N => 0x40,
        Flag::H => 0x20,
        Flag::C => 0x10,
    }
}

/// Whether a flag is set in a flag byte.
pub open spec fn flag_set(fbyte: u8, fl: Flag) -> bool {
    fbyte & flag_mask(fl) == flag_mask(fl)
}

/// The flag byte that holds exactly the four given flag bits; the low nibble
/// is always zero.
pub open spec fn pack_bits(z: bool, n: bool, h: bool, c: bool) -> u8 {
    (if z {
        0x80u8
    } else {
        0u8
    }) | (if n {
        0x40u8
    } else {
        0u8
    }) | (if h {
        0x20u8
    } else {
        0u8
    }) | (if c {
        0x10u8
    } else {
        0u8
    })
}

/// The flag byte encoding a full flag assignment.
pub open spec fn pack_flags(fl: Flags) -> u8 {
    pack_bits(fl.zero, fl.subtract, fl.half_carry, fl.carry)
}

/// A flag byte with one mask bit forced to the given value.
pub open spec fn set_mask(fbyte: u8, m: u8, v: bool) -> u8 {
    if v {
        fbyte | m
    } else {
        fbyte & !m
    }
}

/// A flag byte with one flag forced to the given value.
pub open spec fn with_flag(fbyte: u8, fl: Flag, v: bool) -> u8 {
    set_mask(fbyte, flag_mask(fl), v)
}

/// The high byte of a 16-bit word.
pub open spec fn high_byte(w: u16) -> u8 {
    (w / 256) as u8
}

/// The low byte of a 16-bit word.
pub open spec fn low_byte(w: u16) -> u8 {
    (w % 256) as u8
}

/// The big-endian composition of two bytes into a 16-bit word.
pub open spec fn word_of(high: u8, low: u8) -> u16 {
    (high * 256 + low) as u16
}

proof fn lemma_pack_bits_bv(z: bool, n: bool, h: bool, c: bool)
    by (bit_vector)
    ensures
        (pack_bits(z, n, h, c) & 0x80 == 0x80) == z,
        (pack_bits(z, n, h, c) & 0x40 == 0x40) == n,
        (pack_bits(z, n, h, c) & 0x20 == 0x20) == h,
        (pack_bits(z, n, h, c) & 0x10 == 0x10) == c,
        pack_bits(z, n, h, c) & 0x0F == 0,
{
}

proof fn lemma_set_mask_bv(fbyte: u8, m: u8, m2: u8, v: bool)
    by (bit_vector)
    requires
        m == 0x80 || m == 0x40 || m == 0x20 || m == 0x10,
        m2 == 0x80 || m2 == 0x40 || m2 == 0x20 || m2 == 0x10,
    ensures
        (set_mask(fbyte, m, v) & m == m) == v,
        m2 != m ==> (set_mask(fbyte, m, v) & m2 == m2) == (fbyte & m2 == m2),
        set_mask(fbyte, m, v) & 0x0F == fbyte & 0x0F,
{
}

/// Every flag of a freshly packed byte reads back as written, and the low
/// nibble of the byte is zero.
pub proof fn lemma_pack_flags(fl: Flags)
    ensures
        flag_set(pack_flags(fl), Flag::Z) == fl.zero,
        flag_set(pack_flags(fl), Flag::N) == fl.subtract,
        flag_set(pack_flags(fl), Flag::H) == fl.half_carry,
        flag_set(pack_flags(fl), Flag::C) == fl.carry,
        pack_flags(fl) & 0x0F == 0,
{
    lemma_pack_bits_bv(fl.zero, fl.subtract, fl.half_carry, fl.carry);
}

/// Forcing one flag changes exactly that flag and leaves the low nibble alone.
pub proof fn lemma_with_flag(fbyte: u8, fl: Flag, v: bool)
    ensures
        forall|fl2: Flag|
            #[trigger] flag_set(with_flag(fbyte, fl, v), fl2) == if fl2 == fl {
                v
            } else {
                flag_set(fbyte, fl2)
            },
        with_flag(fbyte, fl, v) & 0x0F == fbyte & 0x0F,
{
    assert forall|fl2: Flag|
        #[trigger] flag_set(with_flag(fbyte, fl, v), fl2) == if fl2 == fl {
            v
        } else {
            flag_set(fbyte, fl2)
        } by {
        lemma_set_mask_bv(fbyte, flag_mask(fl), flag_mask(fl2), v);
    }
    lemma_set_mask_bv(fbyte, flag_mask(fl), flag_mask(fl), v);
}

/// The register file. The pairs BC, DE, HL and AF compose big-endian: the
/// pair value is `high * 256 + low`.
#[derive(Clone, Copy, PartialEq, Eq, Structural, Debug)]
pub struct Registers {
    pub a: u8,
    pub b: u8,
    pub c: u8,
    pub d: u8,
    pub e: u8,
    pub h: u8,
    pub l: u8,
    pub f: u8,
    pub pc: u16,
    pub sp: u16,
    pub ime: bool,
}

impl Registers {
    /// The BC pair.
    pub open spec fn spec_bc(self) -> u16 {
        word_of(self.b, self.c)
    }

    /// The DE pair.
    pub open spec fn spec_de(self) -> u16 {
        word_of(self.d, self.e)
    }

    /// The HL pair.
    pub open spec fn spec_hl(self) -> u16 {
        word_of(self.h, self.l)
    }

    /// The AF pair.
    pub open spec fn spec_af(self) -> u16 {
        word_of(self.a, self.f)
    }

    /// A power-on register file: every register, the flag byte, the program
    /// counter and the stack pointer zero, interrupts disabled.
    pub fn new() -> (r: Registers)
        ensures
            r == (Registers {
                a: 0,
                b: 0,
                c: 0,
                d: 0,
                e: 0,
                h: 0,
                l: 0,
                f: 0,
                pc: 0,
                sp: 0,
                ime: false,
            }),
    {
        Registers { a: 0, b: 0, c: 0, d: 0, e: 0, h: 0, l: 0, f: 0, pc: 0, sp: 0, ime: false }
    }

    pub fn bc(&self) -> (r: u16)
        ensures
            r == self.spec_bc(),
    {
        (self.b as u16) * 256 + (self.c as u16)
    }

    pub fn de(&self) -> (r: u16)
        ensures
            r == self.spec_de(),
    {
        (self.d as u16) * 256 + (self.e as u16)
    }

    pub fn hl(&self) -> (r: u16)
        ensures
            r == self.spec_hl(),
    {
        (self.h as u16) * 256 + (self.l as u16)
    }

    pub fn af(&self) -> (r: u16)
        ensures
            r == self.spec_af(),
    {
        (self.a as u16) * 256 + (self.f as u16)
    }

    pub fn set_bc(&mut self, v: u16)
        ensures
            *final(self) == (Registers { b: high_byte(v), c: low_byte(v), ..*old(self) }),
            final(self).spec_bc() == v,
    {
        self.b = (v / 256) as u8;
        self.c = (v % 256) as u8;
    }

    pub fn set_de(&mut self, v: u16)
        ensures
            *final(self) == (Registers { d: high_byte(v), e: low_byte(v), ..*old(self) }),
            final(self).spec_de() == v,
    {
        self.d = (v / 256) as u8;
        self.e = (v % 256) as u8;
    }

    pub fn set_hl(&mut self, v: u16)
        ensures
            *final(self) == (Registers { h: high_byte(v), l: low_byte(v), ..*old(self) }),
            final(self).spec_hl() == v,
    {
        self.h = (v / 256) as u8;
        self.l = (v % 256) as u8;
    }

    /// Setting AF keeps the invariant that the low nibble of the flag byte is
    /// always zero: the written flag byte is masked to its high nibble.
    pub fn set_af(&mut self, v: u16)
        ensures
            *final(self) == (Registers {
                a: high_byte(v),
                f: low_byte(v) & 0xF0,
                ..*old(self)
            }),
    {
        self.a = (v / 256) as u8;
        self.f = ((v % 256) as u8) & 0xF0;
    }

    pub fn get_flag(&self, fl: Flag) -> (b: bool)
        ensures
            b == flag_set(self.f, fl),
    {
        let m: u8 = match fl {
            Flag::Z => 0x80,
            Flag::N => 0x40,
            Flag::H => 0x20,
            Flag::C => 0x10,
        };
        (self.f & m) == m
    }

    /// The flag as a 0/1 byte, for carry-chained arithmetic.
    pub fn get_flag_bit(&self, fl: Flag) -> (b: u8)
        ensures
            b == (if flag_set(self.f, fl) {
                1u8
            } else {
                0u8
            }),
    {
        if self.get_flag(fl) {
            1
        } else {
            0
        }
    }

    pub fn set_flag(&mut self, fl: Flag, v: bool)
        ensures
            *final(self) == (Registers { f: with_flag(old(self).f, fl, v), ..*old(self) }),
    {
        let m: u8 = match fl {
            Flag::Z => 0x80,
            Flag::N => 0x40,
            Flag::H => 0x20,
            Flag::C => 0x10,
        };
        if v {
            self.f = self.f | m;
        } else {
            self.f = self.f & !m;
        }
    }

    /// Replaces the whole flag byte by the packed record; the low nibble
    /// becomes zero.
    pub fn set_flags(&mut self, fl: Flags)
        ensures
            *final(self) == (Registers { f: pack_flags(fl), ..*old(self) }),
    {
        self.f = (if fl.zero {
            0x80u8
        } else {
            0u8
        }) | (if fl.subtract {
            0x40u8
        } else {
            0u8
        }) | (if fl.half_carry {
            0x20u8
        } else {
            0u8
        }) | (if fl.carry {
            0x10u8
        } else {
            0u8
        });
    }
}

} // verus!
