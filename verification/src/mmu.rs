//! The memory bus: a flat, owned 65536-byte address space with byte, word
//! and bit primitives. Every address is valid by construction, so no
//! operation can fail; 16-bit accesses are little-endian, the second byte
//! wrapping round the top of the address space.

use vstd::prelude::*;

use crate::registers::{high_byte, low_byte};

verus! {

/// The logical region an address belongs to, used only for diagnostics.
#[derive(Clone, Copy, PartialEq, Eq, Structural, Debug)]
pub enum Region {
    Rom,
    Vram,
    Ram,
    Wram,
    Forbidden,
    Oam,
    Io,
    Hram,
    InterruptEnable,
}

/// The region classification of the address map: cartridge ROM, video RAM,
/// external RAM, work RAM, the echo and unusable ranges (both passed through
/// unguarded), object attribute memory, memory-mapped I/O, high RAM and the
/// interrupt-enable register.
pub open spec fn spec_region(adr: u16) -> Region {
    if adr <= 0x7FFF {
        Region::Rom
    } else if adr <= 0x9FFF {
        Region::Vram
    } else if adr <= 0xBFFF {
        Region::Ram
    } else if adr <= 0xDFFF {
        Region::Wram
    } else if adr <= 0xFDFF {
        Region::Forbidden
    } else if adr <= 0xFE9F {
        Region::Oam
    } else if adr <= 0xFEFF {
        Region::Forbidden
    } else if adr <= 0xFF7F {
        Region::Io
    } else if adr <= 0xFFFE {
        Region::Hram
    } else {
        Region::InterruptEnable
    }
}

/// Classifies an address into its logical region.
pub fn region(adr: u16) -> (r: Region)
    ensures
        r == spec_region(adr),
{
    if adr <= 0x7FFF {
        Region::Rom
    } else if adr <= 0x9FFF {
        Region::Vram
    } else if adr <= 0xBFFF {
        Region::Ram
    } else if adr <= 0xDFFF {
        Region::Wram
    } else if adr <= 0xFDFF {
        Region::Forbidden
    } else if adr <= 0xFE9F {
        Region::Oam
    } else if adr <= 0xFEFF {
        Region::Forbidden
    } else if adr <= 0xFF7F {
        Region::Io
    } else if adr <= 0xFFFE {
        Region::Hram
    } else {
        Region::InterruptEnable
    }
}

/// The owned 65536-byte address space. Its view is the sequence of all
/// 65536 bytes; the length is an invariant of the type, so every address a
/// `u16` can hold is in bounds.
pub struct Memory {
    bytes: Vec<u8>,
}

impl View for Memory {
    type V = Seq<u8>;

    closed spec fn view(&self) -> Seq<u8> {
        self.bytes@
    }
}

impl Memory {
    /// The length of the space is an invariant of the type, so it is
    /// available wherever a `Memory` value exists.
    #[verifier::type_invariant]
    pub open spec fn wf(self) -> bool {
        self@.len() == 0x10000
    }

    /// A zero-filled address space.
    pub fn new() -> (m: Memory)
        ensures
            m@.len() == 0x10000,
            forall|i: int| 0 <= i < 0x10000 ==> m@[i] == 0u8,
    {
        let mut bytes: Vec<u8> = Vec::new();
        let mut i: usize = 0;
        while i < 0x10000
            invariant
                i <= 0x10000,
                bytes@.len() == i,
                forall|j: int| 0 <= j < i ==> bytes@[j] == 0u8,
            decreases 0x10000 - i,
        {
            bytes.push(0);
            i = i + 1;
        }
        Memory { bytes }
    }

}

/// The address one past `adr`, wrapping round the top of the space.
pub open spec fn next_adr(adr: u16) -> u16 {
    ((adr + 1) % 0x10000) as u16
}

/// The little-endian 16-bit word stored at `adr`: low byte at `adr`, high
/// byte at the following address.
pub open spec fn word_at(mem: Seq<u8>, adr: u16) -> u16 {
    (mem[next_adr(adr) as int] * 256 + mem[adr as int]) as u16
}

/// The memory after a little-endian 16-bit store at `adr`.
pub open spec fn word_write(mem: Seq<u8>, adr: u16, val: u16) -> Seq<u8> {
    mem.update(adr as int, low_byte(val)).update(next_adr(adr) as int, high_byte(val))
}

/// Whether one bit of a byte is set.
pub open spec fn bit_of(byte: u8, bit: u8) -> bool {
    (byte >> bit) & 1 == 1
}

/// Reads the byte at an address.
pub fn read_byte(adr: u16, mem: &Memory) -> (r: u8)
    ensures
        r == mem@[adr as int],
{
    proof {
        use_type_invariant(mem);
    }
    mem.bytes[adr as usize]
}

/// Writes the byte at an address.
pub fn write_byte(adr: u16, val: u8, mem: &mut Memory)
    ensures
        final(mem)@ == old(mem)@.update(adr as int, val),
{
    proof {
        use_type_invariant(&*mem);
    }
    mem.bytes[adr as usize] = val;
}

/// Reads the little-endian word at an address; the high byte comes from the
/// following address, wrapping round the top of the space.
pub fn read_word(adr: u16, mem: &Memory) -> (r: u16)
    ensures
        r == word_at(mem@, adr),
{
    proof {
        use_type_invariant(mem);
    }
    let lo = mem.bytes[adr as usize];
    let hi = mem.bytes[adr.wrapping_add(1) as usize];
    (hi as u16) * 256 + (lo as u16)
}

/// Writes a little-endian word at an address; the high byte goes to the
/// following address, wrapping round the top of the space.
pub fn write_word(adr: u16, val: u16, mem: &mut Memory)
    ensures
        final(mem)@ == word_write(old(mem)@, adr, val),
{
    proof {
        use_type_invariant(&*mem);
    }
    mem.bytes[adr as usize] = (val % 256) as u8;
    mem.bytes[adr.wrapping_add(1) as usize] = (val / 256) as u8;
}

/// Reads one bit of the byte at an address.
pub fn read_bit(adr: u16, bit: u8, mem: &Memory) -> (b: bool)
    requires
        bit < 8,
    ensures
        b == bit_of(mem@[adr as int], bit),
{
    proof {
        use_type_invariant(mem);
    }
    (mem.bytes[adr as usize] >> bit) & 1 == 1
}

/// Writing a word and reading it back at the same address yields the word,
/// for every address below the top of the space and every 16-bit value.
pub proof fn lemma_word_round_trip(mem: Seq<u8>, adr: u16, val: u16)
    requires
        mem.len() == 0x10000,
        adr < 0xFFFF,
    ensures
        word_at(word_write(mem, adr, val), adr) == val,
{
    vstd::arithmetic::div_mod::lemma_fundamental_div_mod(val as int, 256);
}

/// The fixed power-on byte of each address: the hardware reset defaults of
/// the I/O register range, zero everywhere else.
pub open spec fn boot_byte(adr: int) -> u8 {
    if adr == 0xFF00 {
        0xCF
    } else if adr == 0xFF02 {
        0x7E
    } else if adr == 0xFF04 {
        0x18
    } else if adr == 0xFF07 {
        0xF8
    } else if adr == 0xFF0F {
        0xE1
    } else if adr == 0xFF10 {
        0x80
    } else if adr == 0xFF11 {
        0xBF
    } else if adr == 0xFF12 {
        0xF3
    } else if adr == 0xFF13 {
        0xFF
    } else if adr == 0xFF14 {
        0xBF
    } else if adr == 0xFF16 {
        0x3F
    } else if adr == 0xFF18 {
        0xFF
    } else if adr == 0xFF19 {
        0xBF
    } else if adr == 0xFF1A {
        0x7F
    } else if adr == 0xFF1B {
        0xFF
    } else if adr == 0xFF1C {
        0x9F
    } else if adr == 0xFF1D {
        0xFF
    } else if adr == 0xFF1E {
        0xBF
    } else if adr == 0xFF20 {
        0xFF
    } else if adr == 0xFF23 {
        0xBF
    } else if adr == 0xFF24 {
        0x77
    } else if adr == 0xFF25 {
        0xF3
    } else if adr == 0xFF26 {
        0xF1
    } else if adr == 0xFF40 {
        0x91
    } else if adr == 0xFF41 {
        0x85
    } else if adr == 0xFF46 {
        0xFF
    } else if adr == 0xFF47 {
        0xFC
    } else if adr == 0xFF4D {
        0xFF
    } else if adr == 0xFF4F {
        0xFF
    } else if adr == 0xFF51 {
        0xFF
    } else if adr == 0xFF52 {
        0xFF
    } else if adr == 0xFF53 {
        0xFF
    } else if adr == 0xFF54 {
        0xFF
    } else if adr == 0xFF55 {
        0xFF
    } else if adr == 0xFF56 {
        0xFF
    } else if adr == 0xFF68 {
        0xFF
    } else if adr == 0xFF69 {
        0xFF
    } else if adr == 0xFF6A {
        0xFF
    } else if adr == 0xFF6B {
        0xFF
    } else if adr == 0xFF70 {
        0xFF
    } else {
        0
    }
}

/// Zeroes the whole space and then applies the fixed power-on I/O defaults,
/// leaving every address at exactly its power-on byte.
pub fn init_memory(mem: &mut Memory)
    ensures
        final(mem)@.len() == 0x10000,
        forall|i: int| 0 <= i < 0x10000 ==> final(mem)@[i] == boot_byte(i),
{
    proof {
        use_type_invariant(&*mem);
    }
    let mut i: usize = 0;
    while i < 0x10000
        invariant
            i <= 0x10000,
            mem@.len() == 0x10000,
            forall|j: int| 0 <= j < i ==> mem@[j] == 0u8,
        decreases 0x10000 - i,
    {
        write_byte(i as u16, 0, mem);
        i = i + 1;
    }
    write_byte(0xFF00, 0xCF, mem);
    write_byte(0xFF02, 0x7E, mem);
    write_byte(0xFF04, 0x18, mem);
    write_byte(0xFF07, 0xF8, mem);
    write_byte(0xFF0F, 0xE1, mem);
    write_byte(0xFF10, 0x80, mem);
    write_byte(0xFF11, 0xBF, mem);
    write_byte(0xFF12, 0xF3, mem);
    write_byte(0xFF13, 0xFF, mem);
    write_byte(0xFF14, 0xBF, mem);
    write_byte(0xFF16, 0x3F, mem);
    write_byte(0xFF18, 0xFF, mem);
    write_byte(0xFF19, 0xBF, mem);
    write_byte(0xFF1A, 0x7F, mem);
    write_byte(0xFF1B, 0xFF, mem);
    write_byte(0xFF1C, 0x9F, mem);
    write_byte(0xFF1D, 0xFF, mem);
    write_byte(0xFF1E, 0xBF, mem);
    write_byte(0xFF20, 0xFF, mem);
    write_byte(0xFF23, 0xBF, mem);
    write_byte(0xFF24, 0x77, mem);
    write_byte(0xFF25, 0xF3, mem);
    write_byte(0xFF26, 0xF1, mem);
    write_byte(0xFF40, 0x91, mem);
    write_byte(0xFF41, 0x85, mem);
    write_byte(0xFF46, 0xFF, mem);
    write_byte(0xFF47, 0xFC, mem);
    write_byte(0xFF4D, 0xFF, mem);
    write_byte(0xFF4F, 0xFF, mem);
    write_byte(0xFF51, 0xFF, mem);
    write_byte(0xFF52, 0xFF, mem);
    write_byte(0xFF53, 0xFF, mem);
    write_byte(0xFF54, 0xFF, mem);
    write_byte(0xFF55, 0xFF, mem);
    write_byte(0xFF56, 0xFF, mem);
    write_byte(0xFF68, 0xFF, mem);
    write_byte(0xFF69, 0xFF, mem);
    write_byte(0xFF6A, 0xFF, mem);
    write_byte(0xFF6B, 0xFF, mem);
    write_byte(0xFF70, 0xFF, mem);
}

/// Copies a cartridge image into the bottom of the address space; every
/// byte past the image keeps its old value.
pub fn load_rom(rom: &Vec<u8>, mem: &mut Memory)
    requires
        rom@.len() <= 0x10000,
    ensures
        final(mem)@.len() == 0x10000,
        forall|i: int| 0 <= i < rom@.len() ==> final(mem)@[i] == rom@[i],
        forall|i: int| rom@.len() <= i < 0x10000 ==> final(mem)@[i] == old(mem)@[i],
{
    proof {
        use_type_invariant(&*mem);
    }
    let mut i: usize = 0;
    while i < rom.len()
        invariant
            i <= rom@.len(),
            rom@.len() <= 0x10000,
            mem@.len() == 0x10000,
            forall|j: int| 0 <= j < i ==> mem@[j] == rom@[j],
            forall|j: int| i <= j < 0x10000 ==> mem@[j] == old(mem)@[j],
        decreases rom@.len() - i,
    {
        write_byte(i as u16, rom[i], mem);
        i = i + 1;
    }
}

/// Whether the loaded cartridge is the single supported (unbanked)
/// configuration: the cartridge-type byte at 0x0147 must be zero.
pub fn cartridge_supported(mem: &Memory) -> (b: bool)
    ensures
        b == (mem@[0x0147] == 0u8),
{
    read_byte(0x0147, mem) == 0
}

} // verus!
