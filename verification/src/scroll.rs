//! The video address as the rendering pipeline steps it, the addresses of the
//! background fetches, and the assembly of one row of a pattern.
//!
//! The 15 bits of the video address are laid out as
//! `yyy NN YYYYY XXXXX`: fine y, name-table select, coarse y, coarse x.

use vstd::prelude::*;
use crate::bits::{
    lemma_fetch_address_bounds, lemma_fine_y_wrap_bounds, lemma_pattern_bits,
    lemma_scroll_step_bounds,
};

verus! {

/// Coarse x moves one tile right; past the 32nd tile it returns to zero and
/// the horizontal name table flips.
pub open spec fn spec_increment_x(v: u16) -> u16 {
    if v & 0x001F == 31 {
        (v & 0xFFE0) ^ 0x0400
    } else {
        (v + 1) as u16
    }
}

/// The row that follows coarse y `y`, and whether the vertical name table
/// flips: row 29 is the last of a table; rows 30 and 31 lie in the attribute
/// area and wrap without a flip.
pub open spec fn next_coarse_y(y: u16) -> (u16, bool) {
    if y == 29 {
        (0, true)
    } else if y == 31 {
        (0, false)
    } else {
        ((y + 1) as u16, false)
    }
}

/// Fine y moves one line down; past the eighth line it returns to zero and
/// coarse y moves on.
pub open spec fn spec_increment_y(v: u16) -> u16 {
    if v & 0x7000 != 0x7000 {
        (v + 0x1000) as u16
    } else {
        let cleared = v & 0x8FFF;
        let (y, flip) = next_coarse_y((cleared & 0x03E0) >> 5);
        let base = if flip {
            cleared ^ 0x0800
        } else {
            cleared
        };
        (base & 0xFC1F) | (y << 5)
    }
}

/// Coarse x and the horizontal name-table bit are taken from `t`.
pub open spec fn spec_copy_x(v: u16, t: u16) -> u16 {
    (v & 0xFBE0) | (t & 0x041F)
}

/// Fine y, coarse y and the vertical name-table bit are taken from `t`.
pub open spec fn spec_copy_y(v: u16, t: u16) -> u16 {
    (v & 0x841F) | (t & 0x7BE0)
}

/// Moves coarse x one tile right.
pub fn increment_x(v: u16) -> (next: u16)
    ensures
        next == spec_increment_x(v),
        v < 0x8000 ==> next < 0x8000,
{
    proof {
        lemma_scroll_step_bounds(v, 0);
    }
    if v & 0x001F == 31 {
        (v & 0xFFE0) ^ 0x0400
    } else {
        v + 1
    }
}

/// Moves fine y one line down.
pub fn increment_y(v: u16) -> (next: u16)
    ensures
        next == spec_increment_y(v),
        v < 0x8000 ==> next < 0x8000,
{
    proof {
        lemma_scroll_step_bounds(v, 0);
    }
    if v & 0x7000 != 0x7000 {
        v + 0x1000
    } else {
        let cleared: u16 = v & 0x8FFF;
        let row: u16 = (cleared & 0x03E0) >> 5;
        let mut base: u16 = cleared;
        let y: u16 = if row == 29 {
            base = cleared ^ 0x0800;
            0
        } else if row == 31 {
            0
        } else {
            row + 1
        };
        proof {
            if v < 0x8000 {
                lemma_fine_y_wrap_bounds(v, y);
            }
        }
        (base & 0xFC1F) | (y << 5)
    }
}

/// Reloads the horizontal bits of `v` from `t`.
pub fn copy_x(v: u16, t: u16) -> (next: u16)
    ensures
        next == spec_copy_x(v, t),
        v < 0x8000 && t < 0x8000 ==> next < 0x8000,
{
    proof {
        lemma_scroll_step_bounds(v, t);
    }
    (v & 0xFBE0) | (t & 0x041F)
}

/// Reloads the vertical bits of `v` from `t`.
pub fn copy_y(v: u16, t: u16) -> (next: u16)
    ensures
        next == spec_copy_y(v, t),
        v < 0x8000 && t < 0x8000 ==> next < 0x8000,
{
    proof {
        lemma_scroll_step_bounds(v, t);
    }
    (v & 0x841F) | (t & 0x7BE0)
}

/// Address of the name-table byte of the tile that `v` points at.
pub open spec fn spec_name_table_address(v: u16) -> u16 {
    0x2000 | (v & 0x0FFF)
}

/// Address of the attribute byte that covers the tile that `v` points at.
pub open spec fn spec_attribute_address(v: u16) -> u16 {
    0x23C0 | (v & 0x0C00) | ((v >> 4) & 0x38) | ((v >> 2) & 0x07)
}

/// Position, within its attribute byte, of the two palette bits of the tile
/// that `v` points at.
pub open spec fn spec_attribute_shift(v: u16) -> u16 {
    ((v >> 4) & 4) | (v & 2)
}

/// The palette bits that a tile takes from its attribute byte, moved to
/// bits 2 and 3.
pub open spec fn spec_attribute_bits(v: u16, attribute: u8) -> u8 {
    ((attribute >> spec_attribute_shift(v)) & 3) << 2
}

/// Fine y of `v`.
pub open spec fn spec_fine_y(v: u16) -> u16 {
    (v >> 12) & 7
}

/// Address of row `row` of the low plane of tile `tile` in pattern table
/// `table`; the high plane lies 8 above.
pub open spec fn spec_pattern_address(table: u8, tile: u8, row: u16) -> u16 {
    ((if table == 0 {
        0int
    } else {
        0x1000int
    }) + tile * 16 + row) as u16
}

/// Address of the name-table byte of the tile that `v` points at.
pub fn name_table_address(v: u16) -> (addr: u16)
    ensures
        addr == spec_name_table_address(v),
        0x2000 <= addr < 0x3000,
{
    proof {
        lemma_fetch_address_bounds(v);
    }
    0x2000 | (v & 0x0FFF)
}

/// Address of the attribute byte that covers the tile that `v` points at.
pub fn attribute_address(v: u16) -> (addr: u16)
    ensures
        addr == spec_attribute_address(v),
        0x23C0 <= addr < 0x3000,
{
    proof {
        lemma_fetch_address_bounds(v);
    }
    0x23C0 | (v & 0x0C00) | ((v >> 4) & 0x38) | ((v >> 2) & 0x07)
}

/// The palette bits that a tile takes from its attribute byte.
pub fn attribute_bits(v: u16, attribute: u8) -> (bits: u8)
    ensures
        bits == spec_attribute_bits(v, attribute),
        bits <= 12,
{
    let shift: u16 = ((v >> 4) & 4) | (v & 2);
    proof {
        lemma_fetch_address_bounds(v);
        lemma_pattern_bits(0, attribute, 0, 0, shift);
    }
    ((attribute >> shift) & 3) << 2
}

/// Fine y of `v`.
pub fn fine_y(v: u16) -> (y: u16)
    ensures
        y == spec_fine_y(v),
        y <= 7,
{
    proof {
        lemma_fetch_address_bounds(v);
    }
    (v >> 12) & 7
}

/// Address of a row of the low plane of a tile.
pub fn pattern_address(table: u8, tile: u8, row: u16) -> (addr: u16)
    requires
        row < 8,
    ensures
        addr == spec_pattern_address(table, tile, row),
        addr < 0x1FF8,
{
    let base: u16 = if table == 0 {
        0
    } else {
        0x1000
    };
    base + (tile as u16) * 16 + row
}

/// The four bits of one pixel of a pattern row: the palette bits of `attr`
/// (bits 2 and 3) over bit `bit` of the high plane and of the low plane.
pub open spec fn pixel_nibble(attr: u8, low: u8, high: u8, bit: u8) -> u8 {
    (attr & 0x0C) | ((low >> bit) & 1) | (((high >> bit) & 1) << 1)
}

/// The first `n` pixels of a pattern row, four bits each, the leftmost in
/// the highest place. Pixel `k` takes bit `7 - k` of the planes, or bit `k`
/// when the row is flipped.
pub open spec fn spec_pattern_row(attr: u8, low: u8, high: u8, flipped: bool, n: nat) -> u32
    decreases n,
{
    if n == 0 {
        0
    } else {
        let k = (n - 1) as u8;
        let bit = if flipped {
            k
        } else {
            (7 - k) as u8
        };
        (spec_pattern_row(attr, low, high, flipped, (n - 1) as nat) << 4) | (pixel_nibble(
            attr,
            low,
            high,
            bit,
        ) as u32)
    }
}

/// Assembles the eight pixels of a pattern row.
pub fn pattern_row(attr: u8, low: u8, high: u8, flipped: bool) -> (data: u32)
    ensures
        data == spec_pattern_row(attr, low, high, flipped, 8),
{
    let mut data: u32 = 0;
    let mut k: u8 = 0;
    while k < 8
        invariant
            k <= 8,
            data == spec_pattern_row(attr, low, high, flipped, k as nat),
        decreases 8 - k,
    {
        let bit: u8 = if flipped {
            k
        } else {
            7 - k
        };
        let nibble: u8 = (attr & 0x0C) | ((low >> bit) & 1) | (((high >> bit) & 1) << 1);
        data = (data << 4) | (nibble as u32);
        k = k + 1;
    }
    data
}

} // verus!
