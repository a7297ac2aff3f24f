//! Display modes and how registers 0 and 1 select them.

use vstd::prelude::*;

verus! {

/// The four display modes of the TMS9918A.
#[derive(Clone, Copy, PartialEq, Eq, Structural, Debug)]
pub enum VideoMode {
    /// Graphics I: 256x192 pixels, 32x24 tiles of 8x8 pixels, one character set.
    ///
    /// Each group of eight patterns shares one pair of colours.
    Gfx1,
    /// Graphics II: 256x192 pixels, 32x24 tiles of 8x8 pixels, three character sets.
    ///
    /// The registers can select this mode, but it is not drawn.
    Gfx2,
    /// Text: 240x192 pixels, 40x24 tiles of 6x8 pixels, one character set.
    ///
    /// Two colours for the whole screen, taken from register 7.
    Text,
    /// Multicolor: 256x192 pixels as 64x48 blocks, each with a colour of its own.
    ///
    /// The registers can select this mode, but it is not drawn.
    Multicolor,
}

/// A combination of mode bits that selects no display mode.
///
/// The fields are the offending bits: `m1` is bit 4 of register 1 (text),
/// `m2` is bit 3 of register 1 (multicolor), `m3` is bit 6 of register 0
/// (bitmap).
#[derive(Clone, Copy, PartialEq, Eq, Structural, Debug)]
pub struct ConfigError {
    pub m1: bool,
    pub m2: bool,
    pub m3: bool,
}

/// The text-mode bit M1: bit 4 of register 1.
pub open spec fn text_bit(r1: u8) -> bool {
    r1 & 0x10 != 0
}

/// The multicolor-mode bit M2: bit 3 of register 1.
pub open spec fn multicolor_bit(r1: u8) -> bool {
    r1 & 0x08 != 0
}

/// The bitmap-mode bit M3: bit 6 of register 0.
pub open spec fn bitmap_bit(r0: u8) -> bool {
    r0 & 0x40 != 0
}

/// The blanking bit: bit 6 of register 1. The display is on while it is set.
pub open spec fn display_enabled(r1: u8) -> bool {
    r1 & 0x40 != 0
}

/// The mode that three mode bits select: at most one of them may be set.
pub open spec fn mode_of_bits(m1: bool, m2: bool, m3: bool) -> Result<VideoMode, ConfigError> {
    if !m1 && !m2 && !m3 {
        Ok(VideoMode::Gfx1)
    } else if !m1 && !m2 && m3 {
        Ok(VideoMode::Gfx2)
    } else if !m1 && m2 && !m3 {
        Ok(VideoMode::Multicolor)
    } else if m1 && !m2 && !m3 {
        Ok(VideoMode::Text)
    } else {
        Err(ConfigError { m1, m2, m3 })
    }
}

/// The mode that the contents of registers 0 and 1 select.
pub open spec fn decode_mode(r0: u8, r1: u8) -> Result<VideoMode, ConfigError> {
    mode_of_bits(text_bit(r1), multicolor_bit(r1), bitmap_bit(r0))
}

/// Derives the display mode from the contents of registers 0 and 1, or names
/// the mode bits that fit no mode.
pub fn decode_video_mode(r0: u8, r1: u8) -> (result: Result<VideoMode, ConfigError>)
    ensures
        result == decode_mode(r0, r1),
{
    let m3 = r0 & (1 << 6) != 0;
    let m1 = r1 & (1 << 4) != 0;
    let m2 = r1 & (1 << 3) != 0;
    assert(1u8 << 6 == 0x40u8 && 1u8 << 4 == 0x10u8 && 1u8 << 3 == 0x08u8) by (bit_vector);
    match (m1, m2, m3) {
        (false, false, false) => Ok(VideoMode::Gfx1),
        (false, false, true) => Ok(VideoMode::Gfx2),
        (false, true, false) => Ok(VideoMode::Multicolor),
        (true, false, false) => Ok(VideoMode::Text),
        _ => Err(ConfigError { m1, m2, m3 }),
    }
}

} // verus!
