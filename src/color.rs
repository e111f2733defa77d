//! Packing of RGB triples into the `0xRRGGBB` colour integers that embeds use.

use vstd::prelude::*;

verus! {

/// The integer `0xRRGGBB` that encodes the triple `[r, g, b]`.
pub open spec fn packed_rgb(rgb: [u8; 3]) -> int {
    rgb[0] as int * 0x1_0000 + rgb[1] as int * 0x100 + rgb[2] as int
}

/// Packs `[r, g, b]` into `0xRRGGBB`.
pub fn rgb_to_hex(rgb: [u8; 3]) -> (hex: u32)
    ensures
        hex as int == packed_rgb(rgb),
        hex <= 0xFF_FFFF,
{
    let r: u8 = rgb[0];
    let g: u8 = rgb[1];
    let b: u8 = rgb[2];
    let hex: u32 = ((r as u32) << 16u32) | ((g as u32) << 8u32) | (b as u32);
    assert(((r as u32) << 16u32) | ((g as u32) << 8u32) | (b as u32) == (r as u32) * 0x1_0000
        + (g as u32) * 0x100 + (b as u32)) by (bit_vector);
    hex
}

/// Splits `0xRRGGBB` into `[r, g, b]`; bits above the lowest 24 are ignored.
pub fn hex_to_rgb(hex: u32) -> (rgb: [u8; 3])
    ensures
        rgb[0] as int == (hex as int / 0x1_0000) % 0x100,
        rgb[1] as int == (hex as int / 0x100) % 0x100,
        rgb[2] as int == hex as int % 0x100,
{
    let r: u32 = (hex >> 16u32) & 0xFF;
    let g: u32 = (hex >> 8u32) & 0xFF;
    let b: u32 = hex & 0xFF;
    assert((hex >> 16u32) & 0xFF == (hex / 0x1_0000) % 0x100) by (bit_vector);
    assert((hex >> 8u32) & 0xFF == (hex / 0x100) % 0x100) by (bit_vector);
    assert(hex & 0xFF == hex % 0x100) by (bit_vector);
    [r as u8, g as u8, b as u8]
}

/// Splitting a packed colour gives back the triple it was packed from.
pub proof fn lemma_rgb_round_trip(rgb: [u8; 3])
    ensures
        (packed_rgb(rgb) / 0x1_0000) % 0x100 == rgb[0] as int,
        (packed_rgb(rgb) / 0x100) % 0x100 == rgb[1] as int,
        packed_rgb(rgb) % 0x100 == rgb[2] as int,
{
    let r = rgb[0] as int;
    let g = rgb[1] as int;
    let b = rgb[2] as int;
    assert((r * 0x1_0000 + g * 0x100 + b) / 0x1_0000 == r) by (nonlinear_arith)
        requires 0 <= r < 0x100, 0 <= g < 0x100, 0 <= b < 0x100;
    assert((r * 0x1_0000 + g * 0x100 + b) / 0x100 == r * 0x100 + g) by (nonlinear_arith)
        requires 0 <= r < 0x100, 0 <= g < 0x100, 0 <= b < 0x100;
    assert((r * 0x100 + g) % 0x100 == g) by (nonlinear_arith)
        requires 0 <= r < 0x100, 0 <= g < 0x100;
    assert((r * 0x1_0000 + g * 0x100 + b) % 0x100 == b) by (nonlinear_arith)
        requires 0 <= r < 0x100, 0 <= g < 0x100, 0 <= b < 0x100;
}

/// Packing the three components of a colour that fits in 24 bits gives the
/// colour back.
pub proof fn lemma_hex_round_trip(hex: u32)
    requires
        hex <= 0xFF_FFFF,
    ensures
        ((hex as int / 0x1_0000) % 0x100) * 0x1_0000 + ((hex as int / 0x100) % 0x100) * 0x100
            + hex as int % 0x100 == hex as int,
{
    let h = hex as int;
    assert(((h / 0x1_0000) % 0x100) * 0x1_0000 + ((h / 0x100) % 0x100) * 0x100 + h % 0x100 == h)
        by (nonlinear_arith)
        requires 0 <= h <= 0xFF_FFFF;
}

} // verus!
