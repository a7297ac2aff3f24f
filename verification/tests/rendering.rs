use tms9918a_emu::palette::palette_color;
use tms9918a_emu::{VideoMode, TMS9918A};

const PALETTE: [u32; 16] = [
    0x000000, 0x000000, 0x21C942, 0x5EDC78, 0x5455ED, 0x7D75FC, 0xD3524D, 0x43EBF6, 0xFD5554,
    0xFF7978, 0xD3C153, 0xE5CE80, 0x21B03C, 0xC95BBA, 0xCCCCCC, 0xFFFFFF,
];

// A 6x8 glyph for 'A', in the six high bits of each byte.
const GLYPH_A: [u8; 8] = [
    0b00100000, 0b01010000, 0b10001000, 0b10001000, 0b11111000, 0b10001000, 0b10001000,
    0b00000000,
];

fn zeroed() -> TMS9918A {
    TMS9918A::with_memory(vec![0; 16384])
}

fn patterned() -> TMS9918A {
    let mut ram = Vec::with_capacity(16384);
    for i in 0..16384u32 {
        ram.push((i.wrapping_mul(2654435761) >> 13) as u8);
    }
    TMS9918A::with_memory(ram)
}

// Graphics I set up with name table 0x0400, color table 0x0800, pattern table 0x1000.
fn graphics1(mut vdp: TMS9918A) -> TMS9918A {
    vdp.set_name_table_multiplier(1);
    vdp.set_color_table_multiplier(0x20);
    vdp.set_pattern_table_multiplier(2);
    vdp.set_video_mode(VideoMode::Gfx1).unwrap();
    vdp.enable_video(true).unwrap();
    vdp
}

#[test]
fn palette_has_the_sixteen_fixed_colours() {
    for i in 0..16u8 {
        assert_eq!(palette_color(i), PALETTE[i as usize]);
    }
    assert_eq!(palette_color(0), 0x000000);
    assert_eq!(palette_color(1), 0x000000);
    assert_eq!(palette_color(9), 0xFF7978);
    assert_eq!(palette_color(15), 0xFFFFFF);
}

#[test]
fn text_mode_shows_a_glyph_in_the_top_left_cell() {
    let mut vdp = TMS9918A::new();
    vdp.set_name_table_multiplier(0);
    vdp.set_pattern_table_multiplier(1);
    vdp.set_video_mode(VideoMode::Text).unwrap();
    vdp.write_register(7, 0x91).unwrap();
    let mut font = vec![0u8; 256 * 8];
    font[65 * 8..65 * 8 + 8].copy_from_slice(&GLYPH_A);
    vdp.fill_pattern_table(&font, 0, font.len());
    vdp.clear_name_table();
    vdp.write_name_table(0, b'A');
    vdp.enable_video(true).unwrap();
    vdp.update();

    assert_eq!(vdp.frame_width(), 240);
    assert_eq!(vdp.frame_height(), 196);
    let frame = vdp.frame();
    assert_eq!(frame.len(), 256 * 196);
    let foreground = 0xFF7978;
    let background = 0x000000;
    for y in 0..192usize {
        for x in 0..240usize {
            let expected = if x < 6 && y < 8 && GLYPH_A[y] & (0x80 >> x) != 0 {
                foreground
            } else {
                background
            };
            assert_eq!(frame[y * 240 + x], expected, "pixel ({}, {})", x, y);
        }
    }
    // the top row of the glyph is ..#...
    assert_eq!(frame[0], 0x000000);
    assert_eq!(frame[2], 0xFF7978);
    assert_eq!(frame[3], 0x000000);
    // the fifth row is #####.
    assert_eq!(frame[4 * 240], 0xFF7978);
    assert_eq!(frame[4 * 240 + 4], 0xFF7978);
    assert_eq!(frame[4 * 240 + 5], 0x000000);
    // the rest of the buffer is untouched
    for i in 240 * 192..256 * 196 {
        assert_eq!(frame[i], 0);
    }
}

#[test]
fn text_mode_ignores_the_two_low_bits_of_a_pattern() {
    let mut vdp = zeroed();
    vdp.set_pattern_table_multiplier(1);
    vdp.set_video_mode(VideoMode::Text).unwrap();
    vdp.write_register(7, 0xF4).unwrap();
    // pattern 0, row 0: only the two low bits; row 1: only bit 2; row 2: only bit 7
    vdp.write_pattern_table(0, 0b0000_0011);
    vdp.write_pattern_table(1, 0b0000_0100);
    vdp.write_pattern_table(2, 0b1000_0000);
    vdp.enable_video(true).unwrap();
    vdp.update();
    let frame = vdp.frame();
    let white = 0xFFFFFF;
    let blue = 0x5455ED;
    for tile in 0..40usize {
        for c in 0..6usize {
            assert_eq!(frame[tile * 6 + c], blue);
            assert_eq!(frame[240 + tile * 6 + c], if c == 5 { white } else { blue });
            assert_eq!(frame[480 + tile * 6 + c], if c == 0 { white } else { blue });
        }
    }
}

#[test]
fn text_mode_places_tiles_in_40_columns_with_stride_240() {
    let mut vdp = zeroed();
    vdp.set_name_table_multiplier(1);
    vdp.set_pattern_table_multiplier(1);
    vdp.set_video_mode(VideoMode::Text).unwrap();
    vdp.write_register(7, 0x2E).unwrap();
    // pattern 1 is solid
    for r in 0..8usize {
        vdp.write_pattern_table(8 + r, 0xFC);
    }
    // tile at column 39, row 23 and tile at column 7, row 5
    vdp.write_name_table(23 * 40 + 39, 1);
    vdp.write_name_table(5 * 40 + 7, 1);
    vdp.enable_video(true).unwrap();
    vdp.update();
    let frame = vdp.frame();
    for y in 0..192usize {
        for x in 0..240usize {
            let solid = (x / 6 == 39 && y / 8 == 23) || (x / 6 == 7 && y / 8 == 5);
            let expected = if solid { 0x21C942 } else { 0xCCCCCC };
            assert_eq!(frame[y * 240 + x], expected, "pixel ({}, {})", x, y);
        }
    }
    assert_eq!(frame[240 * 192 - 1], 0x21C942);
    assert_eq!(frame[240 * 192], 0);
}

#[test]
fn graphics1_draws_bit_7_leftmost_with_colours_by_group_of_eight() {
    let mut vdp = graphics1(zeroed());
    // pattern 0 is solid, in the colours of group 0
    for r in 0..8usize {
        vdp.write_pattern_table(r, 0xFF);
    }
    vdp.write_color_table(0, 0x21);
    // pattern 65 belongs to group 8
    let rows: [u8; 8] = [0x80, 0x01, 0xAA, 0x55, 0xFF, 0x00, 0x3C, 0xC3];
    vdp.fill_pattern_table(&[[0u8; 65 * 8].as_slice(), rows.as_slice()].concat(), 65 * 8, 8);
    vdp.write_color_table(8, 0x4F);
    vdp.write_name_table(2 * 32 + 3, 65);
    vdp.update();

    assert_eq!(vdp.frame_width(), 256);
    assert_eq!(vdp.frame_height(), 196);
    let frame = vdp.frame();
    for y in 0..192usize {
        for x in 0..256usize {
            let expected = if x / 8 == 3 && y / 8 == 2 {
                if rows[y % 8] & (0x80 >> (x % 8)) != 0 {
                    0x5455ED
                } else {
                    0xFFFFFF
                }
            } else {
                0x21C942
            };
            assert_eq!(frame[y * 256 + x], expected, "pixel ({}, {})", x, y);
        }
    }
    // row 0 of the tile is 0x80: only the leftmost pixel is foreground
    assert_eq!(frame[16 * 256 + 24], 0x5455ED);
    assert_eq!(frame[16 * 256 + 25], 0xFFFFFF);
    // row 1 of the tile is 0x01: only the rightmost pixel is foreground
    assert_eq!(frame[17 * 256 + 30], 0xFFFFFF);
    assert_eq!(frame[17 * 256 + 31], 0x5455ED);
    // the four rows below the raster stay black
    for i in 256 * 192..256 * 196 {
        assert_eq!(frame[i], 0);
    }
}

#[test]
fn graphics1_matches_the_formula_on_arbitrary_memory() {
    let mut vdp = graphics1(patterned());
    let mut ram = Vec::with_capacity(16384);
    for a in 0..16384usize {
        ram.push(vdp.read_ram(a));
    }
    vdp.update();
    let frame = vdp.frame();
    for y in 0..192usize {
        for x in 0..256usize {
            let name = ram[0x0400 + (y / 8) * 32 + x / 8] as usize;
            let color = ram[0x0800 + name / 8] as usize;
            let pattern = ram[0x1000 + name * 8 + y % 8];
            let expected = if pattern & (1 << (7 - x % 8)) != 0 {
                PALETTE[color >> 4]
            } else {
                PALETTE[color & 0x0F]
            };
            assert_eq!(frame[y * 256 + x], expected, "pixel ({}, {})", x, y);
        }
    }
}

#[test]
fn text_matches_the_formula_on_arbitrary_memory() {
    let mut vdp = patterned();
    vdp.set_name_table_multiplier(3);
    vdp.set_pattern_table_multiplier(5);
    vdp.set_video_mode(VideoMode::Text).unwrap();
    vdp.write_register(7, 0xD6).unwrap();
    vdp.enable_video(true).unwrap();
    let mut ram = Vec::with_capacity(16384);
    for a in 0..16384usize {
        ram.push(vdp.read_ram(a));
    }
    vdp.update();
    let frame = vdp.frame();
    for y in 0..192usize {
        for x in 0..240usize {
            let name = ram[0x0C00 + (y / 8) * 40 + x / 6] as usize;
            let pattern = ram[0x2800 + name * 8 + y % 8];
            let expected = if pattern & (1 << (7 - x % 6)) != 0 { 0xC95BBA } else { 0xD3524D };
            assert_eq!(frame[y * 240 + x], expected, "pixel ({}, {})", x, y);
        }
    }
}

#[test]
fn table_bases_beyond_memory_wrap_when_rendering() {
    let mut near = patterned();
    near.write_register(2, 1).unwrap();
    near.write_register(3, 0x20).unwrap();
    near.write_register(4, 7).unwrap();
    near.enable_video(true).unwrap();
    near.update();
    let mut far = patterned();
    far.write_register(2, 1 + 16).unwrap();
    far.write_register(3, 0x20).unwrap();
    far.write_register(4, 7 + 8 * 3).unwrap();
    far.enable_video(true).unwrap();
    far.update();
    assert_eq!(far.name_table_offset(), 0x4400);
    assert_eq!(far.pattern_table_offset(), 0xF800);
    assert_eq!(near.frame(), far.frame());
    // the last pattern of the last pattern table ends at the last byte of
    // memory, and the last color table lies just below
    let mut vdp = zeroed();
    vdp.write_register(3, 0xFF).unwrap();
    vdp.write_register(4, 0x07).unwrap();
    vdp.write_ram(0, 0xFF);
    vdp.write_ram(0x3FC0 + 31, 0x6B);
    vdp.write_pattern_table(255 * 8 + 7, 0x01);
    vdp.enable_video(true).unwrap();
    vdp.update();
    // tile 0 names pattern 255, whose last row has its rightmost pixel set
    assert_eq!(vdp.frame()[7 * 256 + 7], 0xD3524D);
    assert_eq!(vdp.frame()[7 * 256 + 6], 0xE5CE80);
}

#[test]
fn disabled_display_renders_black_whatever_the_tables_hold() {
    let mut vdp = graphics1(patterned());
    vdp.update();
    assert!(vdp.frame().iter().any(|&p| p != 0));
    vdp.enable_video(false).unwrap();
    vdp.update();
    assert_eq!(vdp.frame().len(), 256 * 196);
    assert!(vdp.frame().iter().all(|&p| p == 0x000000));
    assert_eq!(vdp.frame_width(), 256);

    let mut vdp = patterned();
    vdp.set_video_mode(VideoMode::Text).unwrap();
    vdp.write_register(7, 0xFF).unwrap();
    vdp.enable_video(true).unwrap();
    vdp.update();
    assert_eq!(vdp.frame_width(), 240);
    vdp.enable_video(false).unwrap();
    vdp.update();
    assert!(vdp.frame().iter().all(|&p| p == 0));
    assert_eq!(vdp.frame_width(), 256);
}

#[test]
fn fresh_chip_renders_black() {
    let mut vdp = TMS9918A::new();
    vdp.update();
    assert!(vdp.frame().iter().all(|&p| p == 0));
    assert_eq!(vdp.frame_width(), 256);
    assert_eq!(vdp.frame_height(), 196);
}

#[test]
fn rendering_twice_gives_identical_frames() {
    let mut vdp = graphics1(patterned());
    vdp.update();
    let first = vdp.frame().clone();
    vdp.update();
    assert_eq!(vdp.frame(), &first);

    vdp.set_video_mode(VideoMode::Text).unwrap();
    vdp.update();
    let first = vdp.frame().clone();
    let width = vdp.frame_width();
    vdp.update();
    assert_eq!(vdp.frame(), &first);
    assert_eq!(vdp.frame_width(), width);

    vdp.enable_video(false).unwrap();
    vdp.update();
    let first = vdp.frame().clone();
    vdp.update();
    assert_eq!(vdp.frame(), &first);
}

#[test]
fn mode_change_clears_what_the_new_mode_does_not_draw() {
    let mut vdp = graphics1(zeroed());
    // every pixel of the Graphics I raster is white
    vdp.write_color_table(0, 0xFF);
    vdp.update();
    for i in 0..256 * 192 {
        assert_eq!(vdp.frame()[i], 0xFFFFFF);
    }
    vdp.write_register(7, 0x66).unwrap();
    vdp.set_video_mode(VideoMode::Text).unwrap();
    vdp.update();
    // the Text raster covers the first 240x192 pixels; the white behind it is gone
    for i in 0..240 * 192 {
        assert_eq!(vdp.frame()[i], 0xD3524D);
    }
    for i in 240 * 192..256 * 196 {
        assert_eq!(vdp.frame()[i], 0);
    }
}

#[test]
fn modes_that_are_not_implemented_draw_nothing() {
    for mode in [VideoMode::Gfx2, VideoMode::Multicolor] {
        let mut vdp = patterned();
        vdp.set_video_mode(VideoMode::Text).unwrap();
        vdp.write_register(7, 0xFF).unwrap();
        vdp.enable_video(true).unwrap();
        vdp.update();
        assert!(vdp.frame().iter().any(|&p| p != 0));
        vdp.set_video_mode(VideoMode::Gfx1).unwrap();
        vdp.set_video_mode(mode).unwrap();
        vdp.update();
        // the mode change cleared the frame, and nothing was drawn on it
        assert!(vdp.frame().iter().all(|&p| p == 0));
        assert_eq!(vdp.frame_width(), 240);
        vdp.update();
        assert!(vdp.frame().iter().all(|&p| p == 0));
        assert_eq!(vdp.frame_width(), 240);
    }
}

#[test]
fn rendering_changes_neither_memory_nor_registers_nor_the_cursor() {
    let mut vdp = graphics1(patterned());
    vdp.write_control_port(0x34).unwrap();
    vdp.write_control_port(0x12).unwrap();
    let mut before = Vec::new();
    for a in 0..16384usize {
        before.push(vdp.read_ram(a));
    }
    vdp.update();
    for a in 0..16384usize {
        assert_eq!(vdp.read_ram(a), before[a]);
    }
    assert_eq!(vdp.register(1), 0x40);
    assert_eq!(vdp.register(2), 1);
    assert_eq!(vdp.video_mode(), VideoMode::Gfx1);
    assert_eq!(vdp.address_pointer(), 0x1234);
}

#[test]
fn a_frame_is_shown_unless_the_display_is_on_in_a_mode_that_is_not_drawn() {
    let modes = [VideoMode::Gfx1, VideoMode::Gfx2, VideoMode::Text, VideoMode::Multicolor];
    for &mode in modes.iter() {
        let mut vdp = zeroed();
        vdp.set_video_mode(mode).unwrap();
        assert!(vdp.shows_frame());
        vdp.enable_video(true).unwrap();
        let drawn = mode == VideoMode::Gfx1 || mode == VideoMode::Text;
        assert_eq!(vdp.shows_frame(), drawn);
        vdp.update();
        assert_eq!(vdp.shows_frame(), drawn);
        vdp.enable_video(false).unwrap();
        assert!(vdp.shows_frame());
    }
}

#[test]
fn text_mode_shows_the_glyph_of_any_code_from_a_font_that_fills_memory() {
    // a font as long as memory wraps round it once: the glyphs still lie
    // at the pattern table base
    let mut font = vec![0u8; 16384];
    for (i, byte) in font.iter_mut().enumerate().skip(8) {
        *byte = (i * 37 + 11) as u8;
    }
    for code in [1u8, 0x41, 0xFF] {
        let mut vdp = TMS9918A::new();
        vdp.set_name_table_multiplier(0);
        vdp.set_pattern_table_multiplier(1);
        vdp.set_video_mode(VideoMode::Text).unwrap();
        vdp.write_register(7, 0x91).unwrap();
        vdp.fill_pattern_table(&font, 0, font.len());
        vdp.clear_name_table();
        vdp.write_name_table(0, code);
        vdp.enable_video(true).unwrap();
        vdp.update();
        assert_eq!(vdp.frame_width(), 240);
        let frame = vdp.frame();
        for y in 0..192usize {
            for x in 0..240usize {
                let lit = x < 6 && y < 8 && font[code as usize * 8 + y] & (0x80 >> x) != 0;
                let expected = if lit { 0xFF7978 } else { 0x000000 };
                assert_eq!(frame[y * 240 + x], expected, "pixel ({}, {})", x, y);
            }
        }
        for i in 240 * 192..256 * 196 {
            assert_eq!(frame[i], 0);
        }
    }
}
