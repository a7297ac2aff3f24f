//! What the display modes draw: the colour of each pixel as a function of
//! video memory and registers, and the frame buffer after a rendering.

use crate::mode::VideoMode;
use crate::palette::{background, foreground};
use crate::state::{
    blank_frame, wrap_address, ChipState, ACTIVE_HEIGHT, FRAME_SIZE, FRAME_WIDTH, TEXT_WIDTH,
};
use vstd::prelude::*;

verus! {

/// Whether bit `bit` of a byte is set; bit 0 is the least significant.
pub open spec fn bit_is_set(byte: u8, bit: u8) -> bool {
    byte & (1u8 << bit) != 0
}

/// The colour of one pixel of a pattern row. Column 0 is the leftmost pixel
/// and shows bit 7 of the pattern byte; column 7 shows bit 0.
pub open spec fn row_pixel(pattern: u8, column: int, fg: u32, bg: u32) -> u32 {
    if bit_is_set(pattern, (7 - column) as u8) {
        fg
    } else {
        bg
    }
}

/// Graphics I: the colour of pixel (`x`, `y`) of the 256x192 raster.
///
/// The tile at column `x / 8`, row `y / 8` names a pattern; each group of eight
/// patterns shares one entry of the color table; row `y % 8` of the pattern
/// holds the pixel.
pub open spec fn gfx1_pixel(
    ram: Seq<u8>,
    name_offset: int,
    color_offset: int,
    pattern_offset: int,
    x: int,
    y: int,
) -> u32 {
    let name = ram[wrap_address(name_offset + (y / 8) * 32 + x / 8)];
    let color = ram[wrap_address(color_offset + name / 8)];
    let pattern = ram[wrap_address(pattern_offset + name * 8 + y % 8)];
    row_pixel(pattern, x % 8, foreground(color), background(color))
}

/// Text: the colour of pixel (`x`, `y`) of the 240x192 raster.
///
/// The tile at column `x / 6`, row `y / 8` names a pattern, of which the six
/// high bits of row `y % 8` are shown; the two colours of the screen are the
/// nibbles of `color`.
pub open spec fn text_pixel(
    ram: Seq<u8>,
    name_offset: int,
    pattern_offset: int,
    color: u8,
    x: int,
    y: int,
) -> u32 {
    let name = ram[wrap_address(name_offset + (y / 8) * 40 + x / 6)];
    let pattern = ram[wrap_address(pattern_offset + name * 8 + y % 8)];
    row_pixel(pattern, x % 6, foreground(color), background(color))
}

/// Where pixel (`x`, `y`) of the Text raster lies in the frame buffer.
pub open spec fn text_pixel_index(x: int, y: int) -> int {
    y * 240 + x
}

/// A frame with the Graphics I raster drawn over `base`: pixel (`x`, `y`) is
/// at index `y * 256 + x`, and the rows below the raster keep what `base` has.
pub open spec fn gfx1_frame(
    base: Seq<u32>,
    ram: Seq<u8>,
    name_offset: int,
    color_offset: int,
    pattern_offset: int,
) -> Seq<u32> {
    Seq::new(
        FRAME_SIZE as nat,
        |i: int|
            if i < FRAME_WIDTH * ACTIVE_HEIGHT {
                gfx1_pixel(ram, name_offset, color_offset, pattern_offset, i % 256, i / 256)
            } else {
                base[i]
            },
    )
}

/// A frame with the Text raster drawn over `base`: pixel (`x`, `y`) is at
/// index `y * 240 + x`, and what lies behind the raster keeps what `base` has.
pub open spec fn text_frame(
    base: Seq<u32>,
    ram: Seq<u8>,
    name_offset: int,
    pattern_offset: int,
    color: u8,
) -> Seq<u32> {
    Seq::new(
        FRAME_SIZE as nat,
        |i: int|
            if i < TEXT_WIDTH * ACTIVE_HEIGHT {
                text_pixel(ram, name_offset, pattern_offset, color, i % 240, i / 240)
            } else {
                base[i]
            },
    )
}

impl ChipState {
    /// The frame that a rendering draws on: black after a mode derivation,
    /// else the frame as the last rendering left it.
    pub open spec fn frame_base(self) -> Seq<u32> {
        if self.mode_changed {
            blank_frame()
        } else {
            self.frame
        }
    }

    /// Whether a rendering draws the pixel at index `i` from tile data.
    pub open spec fn draws(self, i: int) -> bool {
        self.video_enabled() && match self.mode {
            VideoMode::Gfx1 => 0 <= i < FRAME_WIDTH * ACTIVE_HEIGHT,
            VideoMode::Text => 0 <= i < TEXT_WIDTH * ACTIVE_HEIGHT,
            VideoMode::Gfx2 => false,
            VideoMode::Multicolor => false,
        }
    }

    /// Whether a rendering makes a frame for the host to show: with the
    /// display off, the black frame; with it on, the raster of Graphics I or
    /// of Text. Graphics II and Multicolor make none.
    pub open spec fn shows_frame(self) -> bool {
        !self.video_enabled() || self.mode == VideoMode::Gfx1 || self.mode == VideoMode::Text
    }

    /// The frame buffer after a rendering. With the display off it is black.
    /// Graphics II and Multicolor are not drawn: the frame stays as it is,
    /// which is black from the moment such a mode is selected.
    pub open spec fn rendered_frame(self) -> Seq<u32> {
        if !self.video_enabled() {
            blank_frame()
        } else {
            match self.mode {
                VideoMode::Gfx1 => gfx1_frame(
                    self.frame_base(),
                    self.ram,
                    self.name_table_offset(),
                    self.color_table_offset(),
                    self.pattern_table_offset(),
                ),
                VideoMode::Text => text_frame(
                    self.frame_base(),
                    self.ram,
                    self.name_table_offset(),
                    self.pattern_table_offset(),
                    self.registers[7],
                ),
                VideoMode::Gfx2 => self.frame_base(),
                VideoMode::Multicolor => self.frame_base(),
            }
        }
    }

    /// The row stride after a rendering: 240 in Text mode, 256 in Graphics I
    /// and with the display off, unchanged in the modes that are not drawn.
    pub open spec fn rendered_width(self) -> int {
        if !self.video_enabled() {
            FRAME_WIDTH as int
        } else {
            match self.mode {
                VideoMode::Gfx1 => FRAME_WIDTH as int,
                VideoMode::Text => TEXT_WIDTH as int,
                VideoMode::Gfx2 => self.frame_width,
                VideoMode::Multicolor => self.frame_width,
            }
        }
    }

    /// The state after a rendering: only the frame, its stride and the
    /// mode-changed flag differ.
    pub open spec fn rendered(self) -> ChipState {
        ChipState {
            frame: self.rendered_frame(),
            frame_width: self.rendered_width(),
            mode_changed: false,
            ..self
        }
    }
}

} // verus!
