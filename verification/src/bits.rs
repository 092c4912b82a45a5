//! Facts about the bit layouts of the picture unit's ports, each proved by
//! bit-blasting once and cited where a register is decoded.

use vstd::prelude::*;

verus! {

/// Every field that a control or mask write decodes fits its width.
pub proof fn lemma_flag_widths(value: u8)
    by (bit_vector)
    ensures
        value & 3 <= 3,
        (value >> 1) & 1 <= 1,
        (value >> 2) & 1 <= 1,
        (value >> 3) & 1 <= 1,
        (value >> 4) & 1 <= 1,
        (value >> 5) & 1 <= 1,
        (value >> 6) & 1 <= 1,
        (value >> 7) & 1 <= 1,
        value & 1 <= 1,
        value & 7 <= 7,
{
}

/// Decoding a zero byte clears every field.
pub proof fn lemma_zero_fields()
    by (bit_vector)
    ensures
        0u8 & 3 == 0,
        0u8 & 1 == 0,
        (0u8 >> 1) & 1 == 0,
        (0u8 >> 2) & 1 == 0,
        (0u8 >> 3) & 1 == 0,
        (0u8 >> 4) & 1 == 0,
        (0u8 >> 5) & 1 == 0,
        (0u8 >> 6) & 1 == 0,
        (0u8 >> 7) & 1 == 0,
{
}

/// The name-table select bits of a control write keep `t` within 15 bits.
pub proof fn lemma_control_keeps_15_bits(t: u16, value: u8)
    by (bit_vector)
    requires
        t < 0x8000,
    ensures
        (t & 0xF3FF) | (((value & 3) as u16) << 10) < 0x8000,
{
}

/// Both halves of a scroll write keep `t` within 15 bits.
pub proof fn lemma_scroll_keeps_15_bits(t: u16, value: u8)
    by (bit_vector)
    requires
        t < 0x8000,
    ensures
        (t & 0xFFE0) | ((value as u16) >> 3) < 0x8000,
        (((t & 0x8FFF) | (((value as u16) & 0x07) << 12)) & 0xFC1F) | (((value as u16) & 0xF8) << 2)
            < 0x8000,
{
}

/// Both halves of an address write keep `t` within 15 bits.
pub proof fn lemma_addr_keeps_15_bits(t: u16, value: u8)
    by (bit_vector)
    requires
        t < 0x8000,
    ensures
        (t & 0x80FF) | (((value as u16) & 0x3F) << 8) < 0x8000,
        (t & 0xFF00) | (value as u16) < 0x8000,
{
}

/// What two scroll writes and two address writes, in that order, leave in
/// `t`: the second scroll byte and the first scroll byte are overwritten, and
/// the 14 address bits come from the two address bytes alone.
pub proof fn lemma_scroll_then_addr(t: u16, a: u8, b: u8, c: u8, d: u8)
    by (bit_vector)
    requires
        t < 0x8000,
    ensures
        ({
            let t1 = (t & 0xFFE0) | ((a as u16) >> 3);
            let t2 = (((t1 & 0x8FFF) | (((b as u16) & 0x07) << 12)) & 0xFC1F) | (((b as u16)
                & 0xF8) << 2);
            let t3 = (t2 & 0x80FF) | (((c as u16) & 0x3F) << 8);
            let t4 = (t3 & 0xFF00) | (d as u16);
            t4 == (((c as u16) & 0x3F) << 8) | (d as u16)
        }),
        (((c as u16) & 0x3F) << 8) | (d as u16) == ((c as u16) % 64) * 256 + (d as u16),
{
}

/// Bounds behind the coarse-x and fine-y steps of the video address.
pub proof fn lemma_scroll_step_bounds(v: u16, t: u16)
    by (bit_vector)
    ensures
        v & 0x001F != 31 ==> v < 0xFFFF,
        v & 0x7000 != 0x7000 ==> v <= 0xEFFF,
        ((v & 0x8FFF) & 0x03E0) >> 5 <= 31,
        v < 0x8000 ==> (v & 0xFFE0) ^ 0x0400 < 0x8000,
        v < 0x8000 && v & 0x001F != 31 ==> v + 1 < 0x8000,
        v < 0x8000 && v & 0x7000 != 0x7000 ==> v + 0x1000 < 0x8000,
        v < 0x8000 && t < 0x8000 ==> (v & 0xFBE0) | (t & 0x041F) < 0x8000,
        v < 0x8000 && t < 0x8000 ==> (v & 0x841F) | (t & 0x7BE0) < 0x8000,
{
}

/// The fine-y step keeps the video address within 15 bits whatever row it
/// stores.
pub proof fn lemma_fine_y_wrap_bounds(v: u16, y: u16)
    by (bit_vector)
    requires
        v < 0x8000,
        y <= 31,
    ensures
        ((v & 0x8FFF) & 0xFC1F) | (y << 5) < 0x8000,
        (((v & 0x8FFF) ^ 0x0800) & 0xFC1F) | (y << 5) < 0x8000,
{
}

/// Ranges of the addresses that the background fetches form from `v`.
pub proof fn lemma_fetch_address_bounds(v: u16)
    by (bit_vector)
    ensures
        0x2000 <= 0x2000 | (v & 0x0FFF) < 0x3000,
        0x23C0 <= 0x23C0 | (v & 0x0C00) | ((v >> 4) & 0x38) | ((v >> 2) & 0x07) < 0x3000,
        ((v >> 4) & 4) | (v & 2) <= 6,
        (v >> 12) & 7 <= 7,
{
}

/// Ranges of the pieces that a pattern row is assembled from.
pub proof fn lemma_pattern_bits(attr: u8, low: u8, high: u8, bit: u8, shift: u16)
    by (bit_vector)
    requires
        bit < 8,
        shift <= 6,
    ensures
        (attr & 0x0C) | ((low >> bit) & 1) | (((high >> bit) & 1) << 1) <= 15,
        ((low >> shift) & 3) << 2 <= 12,
        (attr & 3) << 2 <= 12,
        (attr >> 5) & 1 <= 1,
        attr & 0xFE <= 254,
        attr & 1 <= 1,
{
}

/// A masked nibble of the shift registers fits four bits.
pub proof fn lemma_nibble(wide: u64, narrow: u32, shift: u8)
    by (bit_vector)
    requires
        shift <= 28,
    ensures
        ((wide >> 32) >> shift) & 0x0F <= 15,
        (narrow >> shift) & 0x0F <= 15,
{
}

/// Two bytes have the same sign exactly when their exclusive-or has bit 7
/// clear.
pub proof fn lemma_same_sign(x: u8, y: u8)
    by (bit_vector)
    ensures
        ((x ^ y) & 0x80 == 0) <==> ((x >= 0x80) == (y >= 0x80)),
{
}

/// The fields that the ports decode with shifts and masks are binary digits
/// of the byte written.
pub proof fn lemma_fields_are_digits(value: u8)
    by (bit_vector)
    ensures
        value & 1 == value % 2,
        (value >> 1) & 1 == (value / 2) % 2,
        (value >> 2) & 1 == (value / 4) % 2,
        (value >> 3) & 1 == (value / 8) % 2,
        (value >> 4) & 1 == (value / 16) % 2,
        (value >> 5) & 1 == (value / 32) % 2,
        (value >> 6) & 1 == (value / 64) % 2,
        (value >> 7) & 1 == value / 128,
        value & 3 == value % 4,
        value & 7 == value % 8,
        value & 0x1F == value % 32,
{
}

/// What the two writes of a scroll pair leave in `t`, in numbers: coarse x
/// in the ones, coarse y in the thirty-twos, the name-table select as it
/// was in the 1024s, fine y in the 4096s.
pub proof fn lemma_scroll_layout(t: u16, a: u8, b: u8)
    by (bit_vector)
    requires
        t < 0x8000,
    ensures
        ({
            let t1 = (t & 0xFFE0) | ((a as u16) >> 3);
            (((t1 & 0x8FFF) | (((b as u16) & 0x07) << 12)) & 0xFC1F) | (((b as u16) & 0xF8) << 2)
        }) == ((b as u16) % 8) * 4096 + ((t / 1024) % 4) * 1024 + ((b as u16) / 8) * 32 + (a as u16)
            / 8,
{
}

} // verus!
