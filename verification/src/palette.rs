//! The 64 colours that the picture unit can show.

use vstd::prelude::*;

verus! {

/// Red, green and blue of each colour, eight bits each, red highest.
pub const SYSTEM_PALETTE: [u32; 64] = [
    0x666666, 0x002A88, 0x1412A7, 0x3B00A4, 0x5C007E, 0x6E0040, 0x6C0600, 0x561D00,
    0x333500, 0x0B4800, 0x005200, 0x004F08, 0x00404D, 0x000000, 0x000000, 0x000000,
    0xADADAD, 0x155FD9, 0x4240FF, 0x7527FE, 0xA01ACC, 0xB71E7B, 0xB53120, 0x994E00,
    0x6B6D00, 0x388700, 0x0C9300, 0x008F32, 0x007C8D, 0x000000, 0x000000, 0x000000,
    0xFFFEFF, 0x64B0FF, 0x9290FF, 0xC676FF, 0xF36AFF, 0xFE6ECC, 0xFE8170, 0xEA9E22,
    0xBCBE00, 0x88D800, 0x5CE430, 0x45E082, 0x48CDDE, 0x4F4F4F, 0x000000, 0x000000,
    0xFFFEFF, 0xC0DFFF, 0xD3D2FF, 0xE8C8FF, 0xFBC2FF, 0xFEC4EA, 0xFECCC5, 0xF7D8A5,
    0xE4E594, 0xCFEF96, 0xBDF4AB, 0xB3F3CC, 0xB5EBF2, 0xB8B8B8, 0x000000, 0x000000,
];

/// Colour `index` modulo 64 as opaque red, green, blue, alpha.
pub open spec fn spec_system_color(index: u8) -> [u8; 4] {
    let rgb = SYSTEM_PALETTE[(index % 64) as int];
    [((rgb >> 16) & 0xFF) as u8, ((rgb >> 8) & 0xFF) as u8, (rgb & 0xFF) as u8, 0xFFu8]
}

proof fn lemma_channels(rgb: u32)
    by (bit_vector)
    ensures
        (rgb >> 16) & 0xFF <= 255,
        (rgb >> 8) & 0xFF <= 255,
        rgb & 0xFF <= 255,
{
}

/// Colour `index` modulo 64 as opaque red, green, blue, alpha.
pub fn system_color(index: u8) -> (color: [u8; 4])
    ensures
        color == spec_system_color(index),
{
    let rgb: u32 = SYSTEM_PALETTE[(index % 64) as usize];
    proof {
        lemma_channels(rgb);
    }
    [((rgb >> 16) & 0xFF) as u8, ((rgb >> 8) & 0xFF) as u8, (rgb & 0xFF) as u8, 0xFFu8]
}

} // verus!
