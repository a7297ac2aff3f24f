//! The fixed sixteen-colour palette.

use vstd::prelude::*;

verus! {

/// The packed RGB value of a palette entry. Entries 0 (transparent) and 1
/// (black) are both black: no backdrop is composited.
pub open spec fn palette(index: u8) -> u32 {
    if index == 0 {
        0x000000
    } else if index == 1 {
        0x000000
    } else if index == 2 {
        0x21C942
    } else if index == 3 {
        0x5EDC78
    } else if index == 4 {
        0x5455ED
    } else if index == 5 {
        0x7D75FC
    } else if index == 6 {
        0xD3524D
    } else if index == 7 {
        0x43EBF6
    } else if index == 8 {
        0xFD5554
    } else if index == 9 {
        0xFF7978
    } else if index == 10 {
        0xD3C153
    } else if index == 11 {
        0xE5CE80
    } else if index == 12 {
        0x21B03C
    } else if index == 13 {
        0xC95BBA
    } else if index == 14 {
        0xCCCCCC
    } else {
        0xFFFFFF
    }
}

/// The colour that the high nibble of a colour byte selects.
pub open spec fn foreground(color_byte: u8) -> u32 {
    palette(color_byte >> 4)
}

/// The colour that the low nibble of a colour byte selects.
pub open spec fn background(color_byte: u8) -> u32 {
    palette(color_byte & 0x0F)
}

/// Looks a palette entry up.
pub fn palette_color(index: u8) -> (color: u32)
    requires
        index < 16,
    ensures
        color == palette(index),
{
    let colors: [u32; 16] = [
        0x000000,
        0x000000,
        0x21C942,
        0x5EDC78,
        0x5455ED,
        0x7D75FC,
        0xD3524D,
        0x43EBF6,
        0xFD5554,
        0xFF7978,
        0xD3C153,
        0xE5CE80,
        0x21B03C,
        0xC95BBA,
        0xCCCCCC,
        0xFFFFFF,
    ];
    colors[index as usize]
}

/// Splits a colour byte into its foreground and background colours.
pub fn colors_of(color_byte: u8) -> (colors: (u32, u32))
    ensures
        colors.0 == foreground(color_byte),
        colors.1 == background(color_byte),
{
    let high = color_byte >> 4;
    let low = color_byte & 0x0F;
    assert(color_byte >> 4 < 16 && color_byte & 0x0F < 16) by (bit_vector);
    (palette_color(high), palette_color(low))
}

} // verus!
