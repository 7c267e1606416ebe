//! The display-timing unit: a scanline counter driven by accumulated
//! elapsed cycles. Each CPU m-cycle contributes four display clocks; every
//! full 456-clock period advances the memory-mapped scanline register
//! modulo 154, carrying the remainder forward so no drift accumulates. The
//! transition into scanline 144 — the start of the vertical-blank period —
//! requests the VBlank interrupt and reports a frame boundary; after
//! scanline 153 the counter wraps back to 0.

use vstd::prelude::*;

use crate::mmu::{bit_of, read_bit, read_byte, write_byte, Memory};

verus! {

/// Where tile `i`, row `j`, column `col` of the tile-data dump lands in the
/// 160-by-144 pixel buffer: twenty tiles per row of tiles, eight pixel rows
/// per tile.
pub open spec fn tile_index(i: int, j: int, col: int) -> int {
    (i / 20) * 1280 + j * 160 + i * 8 + col
}

/// Whether `(i, j, col)` names a rendered pixel of the dump: 128 tiles of
/// eight rows, of which the leftmost seven columns are drawn.
pub open spec fn tile_pos(i: int, j: int, col: int) -> bool {
    0 <= i < 128 && 0 <= j < 8 && 0 <= col < 7
}

/// The two-bit shade of one pixel of the tile data: one bit from each of
/// the row's two planes, added.
pub open spec fn tile_pixel(mem: Seq<u8>, i: int, j: int, col: int) -> u8 {
    (((mem[0x8000 + 16 * i + 2 * j] >> ((7 - col) as u8)) & 1) + ((mem[0x8000 + 16 * i + 2 * j
        + 1] >> ((7 - col) as u8)) & 1)) as u8
}

/// The packed color cell of a two-bit shade.
pub open spec fn pixel_color(p: u8) -> u32 {
    if p == 0 {
        0xFF0000FF
    } else if p == 1 {
        0xFF00FF00
    } else if p == 2 {
        0xFFFF0000
    } else if p == 3 {
        0xFFFFFFFF
    } else {
        0xFF000000
    }
}

/// The color that the dump paints at `(i, j, col)`.
pub open spec fn tile_color(mem: Seq<u8>, i: int, j: int, col: int) -> u32 {
    pixel_color(tile_pixel(mem, i, j, col))
}

/// Whether some rendered pixel of the dump lands at buffer index `k`.
pub open spec fn painted(k: int) -> bool {
    exists|a: int, b: int, c: int| tile_pos(a, b, c) && k == #[trigger] tile_index(a, b, c)
}

proof fn lemma_tile_index_decode(i: int, j: int, col: int)
    requires
        tile_pos(i, j, col),
    ensures
        0 <= tile_index(i, j, col) < 23040,
        tile_index(i, j, col) / 1440 == i / 20,
        (tile_index(i, j, col) % 1440) / 160 == j,
        ((tile_index(i, j, col) % 1440) % 160) / 8 == i % 20,
        ((tile_index(i, j, col) % 1440) % 160) % 8 == col,
{
    let q = i / 20;
    let ti = i % 20;
    vstd::arithmetic::div_mod::lemma_fundamental_div_mod(i, 20);
    vstd::arithmetic::div_mod::lemma_mod_pos_bound(i, 20);
    let k = tile_index(i, j, col);
    let rem = j * 160 + ti * 8 + col;
    let within = ti * 8 + col;
    vstd::arithmetic::div_mod::lemma_fundamental_div_mod_converse(k, 1440, q, rem);
    vstd::arithmetic::div_mod::lemma_fundamental_div_mod_converse(rem, 160, j, within);
    vstd::arithmetic::div_mod::lemma_fundamental_div_mod_converse(within, 8, ti, col);
}

proof fn lemma_tile_index_injective(i1: int, j1: int, c1: int, i2: int, j2: int, c2: int)
    requires
        tile_pos(i1, j1, c1),
        tile_pos(i2, j2, c2),
        tile_index(i1, j1, c1) == tile_index(i2, j2, c2),
    ensures
        i1 == i2 && j1 == j2 && c1 == c2,
{
    lemma_tile_index_decode(i1, j1, c1);
    lemma_tile_index_decode(i2, j2, c2);
    vstd::arithmetic::div_mod::lemma_fundamental_div_mod(i1, 20);
    vstd::arithmetic::div_mod::lemma_fundamental_div_mod(i2, 20);
}

proof fn lemma_plane_bit_le(x: u8, sh: u8)
    by (bit_vector)
    ensures
        (x >> sh) & 1 <= 1,
{
}

/// Renders the 2048-byte tile-data region at 0x8000 into the 160-by-144
/// pixel buffer: every rendered pixel gets exactly the packed color of its
/// two-bit shade, and every other buffer cell is left untouched.
pub fn render_tile_data(mem: &Memory, buffer: &mut Vec<u32>)
    requires
        old(buffer)@.len() == 23040,
    ensures
        final(buffer)@.len() == 23040,
        forall|i: int, j: int, col: int|
            tile_pos(i, j, col) ==> final(buffer)@[#[trigger] tile_index(i, j, col)]
                == tile_color(mem@, i, j, col),
        forall|k: int| 0 <= k < 23040 && !painted(k) ==> final(buffer)@[k] == old(buffer)@[k],
{
    let mut i: usize = 0;
    while i < 128
        invariant
            i <= 128,
            buffer@.len() == 23040,
            forall|a: int, b: int, c: int|
                tile_pos(a, b, c) && a < i ==> buffer@[#[trigger] tile_index(a, b, c)]
                    == tile_color(mem@, a, b, c),
            forall|k: int| 0 <= k < 23040 && !painted(k) ==> buffer@[k] == old(buffer)@[k],
        decreases 128 - i,
    {
        let mut j: usize = 0;
        while j < 8
            invariant
                i < 128,
                j <= 8,
                buffer@.len() == 23040,
                forall|a: int, b: int, c: int|
                    tile_pos(a, b, c) && a < i ==> buffer@[#[trigger] tile_index(a, b, c)]
                        == tile_color(mem@, a, b, c),
                forall|b: int, c: int|
                    0 <= b < j && 0 <= c < 7 ==> buffer@[#[trigger] tile_index(i as int, b, c)]
                        == tile_color(mem@, i as int, b, c),
                forall|k: int| 0 <= k < 23040 && !painted(k) ==> buffer@[k] == old(buffer)@[k],
            decreases 8 - j,
        {
            let adr: u16 = 0x8000 + 16 * (i as u16) + 2 * (j as u16);
            let b0 = read_byte(adr, mem);
            let b1 = read_byte(adr + 1, mem);
            let mut col: usize = 0;
            while col < 7
                invariant
                    i < 128,
                    j < 8,
                    col <= 7,
                    buffer@.len() == 23040,
                    b0 == mem@[0x8000 + 16 * i + 2 * j],
                    b1 == mem@[0x8000 + 16 * i + 2 * j + 1],
                    forall|a: int, b: int, c: int|
                        tile_pos(a, b, c) && a < i ==> buffer@[#[trigger] tile_index(a, b, c)]
                            == tile_color(mem@, a, b, c),
                    forall|b: int, c: int|
                        0 <= b < j && 0 <= c < 7 ==> buffer@[#[trigger] tile_index(
                            i as int,
                            b,
                            c,
                        )] == tile_color(mem@, i as int, b, c),
                    forall|c: int|
                        0 <= c < col ==> buffer@[#[trigger] tile_index(i as int, j as int, c)]
                            == tile_color(mem@, i as int, j as int, c),
                    forall|k: int| 0 <= k < 23040 && !painted(k) ==> buffer@[k] == old(
                        buffer,
                    )@[k],
                decreases 7 - col,
            {
                let sh: u8 = 7 - (col as u8);
                proof {
                    lemma_plane_bit_le(b0, sh);
                    lemma_plane_bit_le(b1, sh);
                }
                let pixel: u8 = ((b0 >> sh) & 1) + ((b1 >> sh) & 1);
                let color: u32 = if pixel == 0 {
                    0xFF0000FF
                } else if pixel == 1 {
                    0xFF00FF00
                } else if pixel == 2 {
                    0xFFFF0000
                } else if pixel == 3 {
                    0xFFFFFFFF
                } else {
                    0xFF000000
                };
                let k: usize = (i / 20) * 1280 + j * 160 + i * 8 + col;
                proof {
                    lemma_tile_index_decode(i as int, j as int, col as int);
                    assert(painted(k as int));
                }
                let ghost prev = buffer@;
                buffer[k] = color;
                proof {
                    assert forall|a: int, b: int, c: int|
                        tile_pos(a, b, c) && a < i implies buffer@[#[trigger] tile_index(
                        a,
                        b,
                        c,
                    )] == tile_color(mem@, a, b, c) by {
                        lemma_tile_index_decode(a, b, c);
                        if tile_index(a, b, c) == k as int {
                            lemma_tile_index_injective(
                                a,
                                b,
                                c,
                                i as int,
                                j as int,
                                col as int,
                            );
                        }
                    }
                    assert forall|b: int, c: int|
                        0 <= b < j && 0 <= c < 7 implies buffer@[#[trigger] tile_index(
                        i as int,
                        b,
                        c,
                    )] == tile_color(mem@, i as int, b, c) by {
                        lemma_tile_index_decode(i as int, b, c);
                        if tile_index(i as int, b, c) == k as int {
                            lemma_tile_index_injective(
                                i as int,
                                b,
                                c,
                                i as int,
                                j as int,
                                col as int,
                            );
                        }
                    }
                    assert forall|c: int|
                        0 <= c <= col implies buffer@[#[trigger] tile_index(
                        i as int,
                        j as int,
                        c,
                    )] == tile_color(mem@, i as int, j as int, c) by {
                        lemma_tile_index_decode(i as int, j as int, c);
                        if c < col && tile_index(i as int, j as int, c) == k as int {
                            lemma_tile_index_injective(
                                i as int,
                                j as int,
                                c,
                                i as int,
                                j as int,
                                col as int,
                            );
                        }
                    }
                }
                col = col + 1;
            }
            j = j + 1;
        }
        i = i + 1;
    }
}

/// Whether the LCD-enable bit (bit 7 of the LCD-control register at
/// 0xFF40) is set.
pub open spec fn lcd_enabled(mem: Seq<u8>) -> bool {
    bit_of(mem[0xFF40], 7)
}

/// Drains full scanline periods out of an accumulator: while at least 456
/// display clocks are pending, one period is consumed and the scanline
/// advances by one modulo 154; `vblank` records whether any advance entered
/// line 144, the start of the vertical-blank period. Returns the remaining
/// clocks, the final scanline and the VBlank request.
pub open spec fn spec_gpu_drain(acc: int, line: u8, vblank: bool) -> (int, u8, bool)
    decreases acc,
{
    if acc >= 456 {
        let line2 = ((line + 1) % 154) as u8;
        spec_gpu_drain(acc - 456, line2, vblank || line2 == 144)
    } else {
        (acc, line, vblank)
    }
}

/// Feeding exactly one scanline period advances the scanline by exactly
/// one (modulo 154), leaves the accumulator where it started, and requests
/// VBlank exactly when the new scanline is 144.
pub proof fn lemma_one_period(acc: int, line: u8)
    requires
        0 <= acc < 456,
    ensures
        ({
            let (acc2, line2, vblank) = spec_gpu_drain(acc + 456, line, false);
            acc2 == acc && line2 == ((line + 1) % 154) as u8 && vblank == (line2 == 144)
        }),
{
    let line2 = ((line + 1) % 154) as u8;
    assert(spec_gpu_drain(acc, line2, false || line2 == 144) == (acc, line2, line2 == 144));
}

/// Draining whole periods requests VBlank only on entering line 144: a run
/// of periods that stays below line 144, or one that stays inside the
/// vertical-blank lines 144 to 153, advances the scanline by exactly the
/// number of periods fed and leaves the VBlank request clear.
pub proof fn lemma_no_vblank_without_entering_144(acc: int, line: u8, n: int)
    requires
        0 <= acc < 456,
        0 <= n,
        line + n <= 143 || (144 <= line && line + n <= 153),
    ensures
        spec_gpu_drain(acc + 456 * n, line, false) == (acc, (line + n) as u8, false),
    decreases n,
{
    if n > 0 {
        let line2 = ((line + 1) % 154) as u8;
        vstd::arithmetic::div_mod::lemma_small_mod((line + 1) as nat, 154);
        lemma_no_vblank_without_entering_144(acc, line2, n - 1);
        assert(acc + 456 * n - 456 == acc + 456 * (n - 1)) by (nonlinear_arith);
    }
}

proof fn lemma_or1_idempotent(x: u8)
    by (bit_vector)
    ensures
        (x | 0x01) | 0x01 == x | 0x01,
{
}

/// The display-timing unit: the accumulator of display clocks left over
/// after the last completed scanline period. It is always below one period.
pub struct Gpu {
    clocks: u32,
}

impl Gpu {
    /// The pending display clocks, exposed for contracts.
    pub closed spec fn spec_clocks(self) -> u32 {
        self.clocks
    }

    #[verifier::type_invariant]
    spec fn wf(self) -> bool {
        self.clocks < 456
    }

    /// A display-timing unit with an empty accumulator.
    pub fn new() -> (g: Gpu)
        ensures
            g.spec_clocks() == 0u32,
    {
        Gpu { clocks: 0 }
    }

    /// Feeds the elapsed m-cycles of one CPU step to the timing unit.
    ///
    /// With the LCD disabled the scanline register is forced to 0 and
    /// nothing else happens. With it enabled, the elapsed cycles are
    /// converted to display clocks (times 4) and accumulated; every full
    /// 456-clock period advances the scanline register modulo 154, and the
    /// transition into line 144 — the start of the vertical blank — sets
    /// the VBlank bit of the interrupt-flag register. Returns whether a
    /// frame boundary (a transition into line 144) was reached.
    pub fn tick(&mut self, m_cycles: u16, mem: &mut Memory) -> (frame: bool)
        ensures
            !lcd_enabled(old(mem)@) ==> final(mem)@ == old(mem)@.update(0xFF44, 0u8)
                && final(self).spec_clocks() == old(self).spec_clocks() && !frame,
            lcd_enabled(old(mem)@) ==> ({
                let (acc2, line2, vblank) = spec_gpu_drain(
                    old(self).spec_clocks() + 4 * m_cycles,
                    old(mem)@[0xFF44],
                    false,
                );
                &&& final(self).spec_clocks() == acc2
                &&& frame == vblank
                &&& final(mem)@.len() == 0x10000
                &&& final(mem)@[0xFF44] == line2
                &&& final(mem)@[0xFF0F] == (if vblank {
                    old(mem)@[0xFF0F] | 0x01
                } else {
                    old(mem)@[0xFF0F]
                })
                &&& forall|i: int|
                    0 <= i < 0x10000 && i != 0xFF44 && i != 0xFF0F ==> final(mem)@[i] == old(
                        mem,
                    )@[i]
            }),
    {
        proof {
            use_type_invariant(&*self);
            use_type_invariant(&*mem);
        }
        let enabled = read_bit(0xFF40, 7, mem);
        if !enabled {
            write_byte(0xFF44, 0, mem);
            return false;
        }
        let ghost acc0: int = self.clocks + 4 * m_cycles;
        let ghost line0: u8 = mem@[0xFF44];
        let ghost if0: u8 = mem@[0xFF0F];
        let mut acc: u32 = self.clocks + 4 * (m_cycles as u32);
        let mut frame = false;
        while acc >= 456
            invariant
                mem@.len() == 0x10000,
                acc <= acc0,
                spec_gpu_drain(acc as int, mem@[0xFF44], frame) == spec_gpu_drain(
                    acc0,
                    line0,
                    false,
                ),
                mem@[0xFF0F] == (if frame {
                    if0 | 0x01
                } else {
                    if0
                }),
                forall|i: int|
                    0 <= i < 0x10000 && i != 0xFF44 && i != 0xFF0F ==> mem@[i] == old(mem)@[i],
            decreases acc,
        {
            let line = read_byte(0xFF44, mem);
            let line2 = (((line as u16) + 1) % 154) as u8;
            write_byte(0xFF44, line2, mem);
            if line2 == 144 {
                let v = read_byte(0xFF0F, mem);
                proof {
                    lemma_or1_idempotent(if0);
                }
                write_byte(0xFF0F, v | 0x01, mem);
                frame = true;
            }
            acc = acc - 456;
        }
        self.clocks = acc;
        frame
    }
}

} // verus!
