//! The rendering pipeline: one full-screen pass from video memory to pixels.

use crate::chip::TMS9918A;
use crate::mode::VideoMode;
use crate::palette::{background, colors_of, foreground};
use crate::raster::{gfx1_frame, gfx1_pixel, row_pixel, text_frame, text_pixel};
use crate::state::{blank_frame, FRAME_SIZE, FRAME_WIDTH, RAM_SIZE, TEXT_WIDTH};
use vstd::prelude::*;

verus! {

/// Draws one row of a tile: the `width` high bits of `pattern`, bit 7 at
/// `start`, each set bit in `fg` and each clear bit in `bg`.
fn draw_row(frame: &mut Vec<u32>, start: usize, width: usize, pattern: u8, fg: u32, bg: u32)
    requires
        1 <= width <= 8,
        start + width <= old(frame)@.len(),
    ensures
        final(frame)@.len() == old(frame)@.len(),
        forall|i: int|
            0 <= i < old(frame)@.len() ==> #[trigger] final(frame)@[i] == if start <= i < start
                + width {
                row_pixel(pattern, i - start, fg, bg)
            } else {
                old(frame)@[i]
            },
{
    let ghost before = frame@;
    let mut pattern_bit: usize = 8 - width;
    while pattern_bit < 8
        invariant
            1 <= width <= 8,
            8 - width <= pattern_bit <= 8,
            frame.len() == before.len(),
            start + width <= frame.len(),
            forall|i: int|
                0 <= i < before.len() ==> #[trigger] frame@[i] == if start + 7 - pattern_bit < i
                    < start + width {
                    row_pixel(pattern, i - start, fg, bg)
                } else {
                    before[i]
                },
        decreases 8 - pattern_bit,
    {
        let frame_bit: usize = 7 - pattern_bit;
        let pixel = if pattern & (1u8 << (pattern_bit as u8)) != 0 {
            fg
        } else {
            bg
        };
        frame[start + frame_bit] = pixel;
        pattern_bit += 1;
    }
}

/// Whether the Graphics I pass has drawn the pixel at index `i` once it
/// stands before row `row` of the tile at column `tile_x`, row `tile_y`.
spec fn gfx1_drawn(i: int, tile_y: int, tile_x: int, row: int) -> bool {
    let x = i % 256;
    let y = i / 256;
    0 <= i < 49152 && (y / 8 < tile_y || (y / 8 == tile_y && (x / 8 < tile_x || (x / 8 == tile_x
        && y % 8 < row))))
}

/// Draws the Graphics I raster: 32x24 tiles of 8x8 pixels, row stride 256.
fn render_graphics1(
    frame: &mut Vec<u32>,
    ram: &Vec<u8>,
    name_offset: usize,
    color_offset: usize,
    pattern_offset: usize,
)
    requires
        old(frame)@.len() == FRAME_SIZE,
        ram@.len() == RAM_SIZE,
        name_offset <= 0x0400 * 255,
        color_offset <= 0x0040 * 255,
        pattern_offset <= 0x0800 * 255,
    ensures
        final(frame)@ == gfx1_frame(
            old(frame)@,
            ram@,
            name_offset as int,
            color_offset as int,
            pattern_offset as int,
        ),
{
    let ghost before = frame@;
    let mut tile_y: usize = 0;
    while tile_y < 24
        invariant
            tile_y <= 24,
            frame.len() == FRAME_SIZE,
            before.len() == FRAME_SIZE,
            ram@.len() == RAM_SIZE,
            name_offset <= 0x0400 * 255,
            color_offset <= 0x0040 * 255,
            pattern_offset <= 0x0800 * 255,
            forall|i: int|
                0 <= i < FRAME_SIZE ==> #[trigger] frame@[i] == if gfx1_drawn(
                    i,
                    tile_y as int,
                    0,
                    0,
                ) {
                    gfx1_pixel(
                        ram@,
                        name_offset as int,
                        color_offset as int,
                        pattern_offset as int,
                        i % 256,
                        i / 256,
                    )
                } else {
                    before[i]
                },
        decreases 24 - tile_y,
    {
        let mut tile_x: usize = 0;
        while tile_x < 32
            invariant
                tile_y < 24,
                tile_x <= 32,
                frame.len() == FRAME_SIZE,
                before.len() == FRAME_SIZE,
                ram@.len() == RAM_SIZE,
                name_offset <= 0x0400 * 255,
                color_offset <= 0x0040 * 255,
                pattern_offset <= 0x0800 * 255,
                forall|i: int|
                    0 <= i < FRAME_SIZE ==> #[trigger] frame@[i] == if gfx1_drawn(
                        i,
                        tile_y as int,
                        tile_x as int,
                        0,
                    ) {
                        gfx1_pixel(
                            ram@,
                            name_offset as int,
                            color_offset as int,
                            pattern_offset as int,
                            i % 256,
                            i / 256,
                        )
                    } else {
                        before[i]
                    },
            decreases 32 - tile_x,
        {
            let name_entry = ram[(name_offset + (tile_y * 32) + tile_x) % RAM_SIZE];
            let color_entry = name_entry / 8;
            let color_byte = ram[(color_offset + color_entry as usize) % RAM_SIZE];
            let (foreground_color, background_color) = colors_of(color_byte);
            let mut pattern_byte: usize = 0;
            while pattern_byte < 8
                invariant
                    tile_y < 24,
                    tile_x < 32,
                    pattern_byte <= 8,
                    frame.len() == FRAME_SIZE,
                    before.len() == FRAME_SIZE,
                    ram@.len() == RAM_SIZE,
                    name_offset <= 0x0400 * 255,
                    color_offset <= 0x0040 * 255,
                    pattern_offset <= 0x0800 * 255,
                    name_entry == ram@[(name_offset + tile_y * 32 + tile_x) % 16384],
                    color_byte == ram@[(color_offset + name_entry / 8) % 16384],
                    foreground_color == foreground(color_byte),
                    background_color == background(color_byte),
                    forall|i: int|
                        0 <= i < FRAME_SIZE ==> #[trigger] frame@[i] == if gfx1_drawn(
                            i,
                            tile_y as int,
                            tile_x as int,
                            pattern_byte as int,
                        ) {
                            gfx1_pixel(
                                ram@,
                                name_offset as int,
                                color_offset as int,
                                pattern_offset as int,
                                i % 256,
                                i / 256,
                            )
                        } else {
                            before[i]
                        },
                decreases 8 - pattern_byte,
            {
                let offset = (pattern_offset + (name_entry as usize * 8) + pattern_byte)
                    % RAM_SIZE;
                let pattern = ram[offset];
                let start = (tile_x * 8) + (tile_y * 8 * 256) + (pattern_byte * 256);
                draw_row(frame, start, 8, pattern, foreground_color, background_color);
                pattern_byte += 1;
            }
            tile_x += 1;
        }
        tile_y += 1;
    }
}

/// Whether the Text pass has drawn the pixel at index `i` once it stands
/// before row `row` of the tile at column `tile_x`, row `tile_y`.
spec fn text_drawn(i: int, tile_y: int, tile_x: int, row: int) -> bool {
    let x = i % 240;
    let y = i / 240;
    0 <= i < 46080 && (y / 8 < tile_y || (y / 8 == tile_y && (x / 6 < tile_x || (x / 6 == tile_x
        && y % 8 < row))))
}

/// Draws the Text raster: 40x24 tiles of 6x8 pixels, row stride 240, both
/// colours from `color_byte`.
fn render_text(
    frame: &mut Vec<u32>,
    ram: &Vec<u8>,
    name_offset: usize,
    pattern_offset: usize,
    color_byte: u8,
)
    requires
        old(frame)@.len() == FRAME_SIZE,
        ram@.len() == RAM_SIZE,
        name_offset <= 0x0400 * 255,
        pattern_offset <= 0x0800 * 255,
    ensures
        final(frame)@ == text_frame(
            old(frame)@,
            ram@,
            name_offset as int,
            pattern_offset as int,
            color_byte,
        ),
{
    let ghost before = frame@;
    let mut tile_y: usize = 0;
    while tile_y < 24
        invariant
            tile_y <= 24,
            frame.len() == FRAME_SIZE,
            before.len() == FRAME_SIZE,
            ram@.len() == RAM_SIZE,
            name_offset <= 0x0400 * 255,
            pattern_offset <= 0x0800 * 255,
            forall|i: int|
                0 <= i < FRAME_SIZE ==> #[trigger] frame@[i] == if text_drawn(
                    i,
                    tile_y as int,
                    0,
                    0,
                ) {
                    text_pixel(
                        ram@,
                        name_offset as int,
                        pattern_offset as int,
                        color_byte,
                        i % 240,
                        i / 240,
                    )
                } else {
                    before[i]
                },
        decreases 24 - tile_y,
    {
        let mut tile_x: usize = 0;
        while tile_x < 40
            invariant
                tile_y < 24,
                tile_x <= 40,
                frame.len() == FRAME_SIZE,
                before.len() == FRAME_SIZE,
                ram@.len() == RAM_SIZE,
                name_offset <= 0x0400 * 255,
                pattern_offset <= 0x0800 * 255,
                forall|i: int|
                    0 <= i < FRAME_SIZE ==> #[trigger] frame@[i] == if text_drawn(
                        i,
                        tile_y as int,
                        tile_x as int,
                        0,
                    ) {
                        text_pixel(
                            ram@,
                            name_offset as int,
                            pattern_offset as int,
                            color_byte,
                            i % 240,
                            i / 240,
                        )
                    } else {
                        before[i]
                    },
            decreases 40 - tile_x,
        {
            let name_entry = ram[(name_offset + (tile_y * 40) + tile_x) % RAM_SIZE];
            let (foreground_color, background_color) = colors_of(color_byte);
            let mut pattern_byte: usize = 0;
            while pattern_byte < 8
                invariant
                    tile_y < 24,
                    tile_x < 40,
                    pattern_byte <= 8,
                    frame.len() == FRAME_SIZE,
                    before.len() == FRAME_SIZE,
                    ram@.len() == RAM_SIZE,
                    name_offset <= 0x0400 * 255,
                    pattern_offset <= 0x0800 * 255,
                    name_entry == ram@[(name_offset + tile_y * 40 + tile_x) % 16384],
                    foreground_color == foreground(color_byte),
                    background_color == background(color_byte),
                    forall|i: int|
                        0 <= i < FRAME_SIZE ==> #[trigger] frame@[i] == if text_drawn(
                            i,
                            tile_y as int,
                            tile_x as int,
                            pattern_byte as int,
                        ) {
                            text_pixel(
                                ram@,
                                name_offset as int,
                                pattern_offset as int,
                                color_byte,
                                i % 240,
                                i / 240,
                            )
                        } else {
                            before[i]
                        },
                decreases 8 - pattern_byte,
            {
                let offset = (pattern_offset + (name_entry as usize * 8) + pattern_byte)
                    % RAM_SIZE;
                let pattern = ram[offset];
                let start = (tile_x * 6) + (tile_y * 8 * 240) + (pattern_byte * 240);
                draw_row(frame, start, 6, pattern, foreground_color, background_color);
                pattern_byte += 1;
            }
            tile_x += 1;
        }
        tile_y += 1;
    }
}

/// Makes every pixel of the frame buffer black.
fn clear_frame(frame: &mut Vec<u32>)
    requires
        old(frame)@.len() == FRAME_SIZE,
    ensures
        final(frame)@ == blank_frame(),
{
    let mut i: usize = 0;
    while i < FRAME_SIZE
        invariant
            i <= FRAME_SIZE,
            frame.len() == FRAME_SIZE,
            forall|k: int| 0 <= k < i ==> #[trigger] frame@[k] == 0,
        decreases FRAME_SIZE - i,
    {
        frame[i] = 0;
        i += 1;
    }
}

impl TMS9918A {
    /// Whether `update` makes a frame for the host to show, as the registers
    /// stand: it makes none while the display is on in Graphics II or
    /// Multicolor.
    pub fn shows_frame(&self) -> (shows: bool)
        requires
            self.wf(),
        ensures
            shows == self@.shows_frame(),
    {
        proof {
            assert(1u8 << 6 == 0x40u8) by (bit_vector);
        }
        self.vdp_register[1] & (1 << 6) == 0 || self.vdp_mode == VideoMode::Gfx1 || self.vdp_mode
            == VideoMode::Text
    }

    /// Updates the frame buffer from the video memory contents.
    ///
    /// A frame that a mode derivation has marked is cleared first. With the
    /// display off the frame is black, 256 pixels wide. With it on, Graphics I
    /// draws 256x192 pixels and Text 240x192 pixels in rows of 240; what they
    /// do not cover keeps its contents. Graphics II and Multicolor are not
    /// implemented: in them nothing is drawn and the frame keeps its width.
    ///
    /// Where `shows_frame()` holds, the host shows `frame()` at
    /// `frame_width()` by `frame_height()` pixels after the call; it calls at
    /// whatever rate it chooses.
    pub fn update(&mut self)
        requires
            old(self).wf(),
        ensures
            final(self).wf(),
            final(self)@ == old(self)@.rendered(),
    {
        if self.frame_clear {
            clear_frame(&mut self.frame);
            self.frame_clear = false;
        }
        proof {
            assert(1u8 << 6 == 0x40u8) by (bit_vector);
        }
        // check blanking bit
        if self.vdp_register[1] & (1 << 6) != 0 {
            // blanking bit is set, screen is enabled
            // Graphics I
            if self.vdp_mode == VideoMode::Gfx1 {
                render_graphics1(
                    &mut self.frame,
                    &self.vdp_ram,
                    self.vdp_name_table_offset,
                    self.vdp_color_table_offset,
                    self.vdp_pattern_table_offset,
                );
                self.frame_width = FRAME_WIDTH;
            }
            // Text
            if self.vdp_mode == VideoMode::Text {
                render_text(
                    &mut self.frame,
                    &self.vdp_ram,
                    self.vdp_name_table_offset,
                    self.vdp_pattern_table_offset,
                    self.vdp_register[7],
                );
                self.frame_width = TEXT_WIDTH;
            }
        } else {
            // blanking bit is clear, screen is disabled
            clear_frame(&mut self.frame);
            self.frame_width = FRAME_WIDTH;
        }
    }
}

} // verus!
