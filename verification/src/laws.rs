//! What holds of the chip whatever state it is in: each law is proved over
//! the model that the contracts of the operations speak of.

use crate::memory::name_table_size;
use crate::mode::{decode_mode, VideoMode};
use crate::ports::lemma_command_address;
use crate::raster::text_pixel_index;
use crate::registers::{
    blanking_register, clamped, lemma_blanking_register, lemma_mode_registers,
};
use crate::state::{wrap_address, ChipState, RAM_SIZE};
use vstd::prelude::*;

verus! {

/// The one place, among the addresses of memory, that lies `i` bytes on from
/// an origin, for `i` less than the memory size.
proof fn lemma_wrap_place(origin: int, a: int, i: int)
    requires
        0 <= a < 16384,
        0 <= i < 16384,
    ensures
        0 <= wrap_address(origin + i) < 16384,
        0 <= wrap_address(a - origin) < 16384,
        a == wrap_address(origin + i) <==> wrap_address(a - origin) == i,
{
}

/// A register write is read back: the register written holds the byte, and
/// the other registers hold what they held.
pub proof fn register_reads_back(s: ChipState, register: int, data: u8)
    requires
        s.wf(),
        0 <= register < 8,
    ensures
        s.register_written(register, data).wf(),
        s.register_written(register, data).registers[register] == data,
        forall|other: int|
            0 <= other < 8 && other != register ==> s.register_written(
                register,
                data,
            ).registers[other] == s.registers[other],
{
}

/// After any register write, from any state, the three table offsets are
/// the fixed multiples of registers 2, 3 and 4 as they now stand.
pub proof fn table_offsets_follow_registers(s: ChipState, register: int, data: u8)
    requires
        s.wf(),
        0 <= register < 8,
    ensures
        s.register_written(register, data).name_table_offset() == 0x0400 * (if register == 2 {
            data
        } else {
            s.registers[2]
        }),
        s.register_written(register, data).color_table_offset() == 0x0040 * (if register == 3 {
            data
        } else {
            s.registers[3]
        }),
        s.register_written(register, data).pattern_table_offset() == 0x0800 * (if register == 4 {
            data
        } else {
            s.registers[4]
        }),
{
}

/// A write to a register other than 0 and 1 always succeeds and leaves the
/// mode alone.
pub proof fn table_registers_never_fail(s: ChipState, register: int, data: u8)
    requires
        s.wf(),
        2 <= register < 8,
    ensures
        s.register_write_result(register, data) is Ok,
        s.register_written(register, data).mode == s.mode,
        s.register_written(register, data).mode_changed == s.mode_changed,
{
}

/// While registers 0 and 1 select a mode, every mode can be selected but
/// Graphics II from Text or Multicolor; and a mode that was selected is the
/// mode in force.
pub proof fn mode_set_succeeds(s: ChipState, mode: VideoMode)
    requires
        s.wf(),
        decode_mode(s.registers[0], s.registers[1]) is Ok,
    ensures
        s.mode_set_result(mode) is Err <==> mode == VideoMode::Gfx2 && (s.mode == VideoMode::Text
            || s.mode == VideoMode::Multicolor),
        s.mode_set_result(mode) is Ok ==> s.mode_set(mode).mode == mode,
        s.mode_set(mode).wf(),
{
    lemma_mode_registers(mode, s.registers[0], s.registers[1]);
}

/// A fill changes memory alone; and a fill of no more bytes than memory holds
/// puts each byte at its own place from the base on, modulo the memory size,
/// and leaves the other bytes as they were.
pub proof fn fill_places_each_byte(s: ChipState, base: int, data: Seq<u8>, from: int, to: int)
    requires
        s.wf(),
        0 <= base,
        0 <= from <= to <= data.len(),
    ensures
        s.ram_filled(base, data, from, to).wf(),
        s.ram_filled(base, data, from, to) == (ChipState {
            ram: s.ram_filled(base, data, from, to).ram,
            ..s
        }),
        to - from <= RAM_SIZE ==> forall|a: int|
            0 <= a < RAM_SIZE ==> #[trigger] s.ram_filled(base, data, from, to).ram[a]
                == if wrap_address(a - base - from) < to - from {
                data[from + wrap_address(a - base - from)]
            } else {
                s.ram[a]
            },
    decreases to - from,
{
    if from < to {
        fill_places_each_byte(s, base, data, from, to - 1);
        let before = s.ram_filled(base, data, from, to - 1);
        let after = s.ram_filled(base, data, from, to);
        assert(after == before.ram_written(base + to - 1, data[to - 1]));
        if to - from <= RAM_SIZE {
            assert forall|a: int| 0 <= a < RAM_SIZE implies #[trigger] after.ram[a]
                == if wrap_address(a - base - from) < to - from {
                data[from + wrap_address(a - base - from)]
            } else {
                s.ram[a]
            } by {
                lemma_wrap_place(base + from, a, to - 1 - from);
            }
        }
    }
}

/// Clearing zeroes exactly the `length` bytes from the base on, modulo the
/// memory size.
pub proof fn clear_zeroes_the_table(s: ChipState, base: int, length: int, offset: int)
    requires
        s.wf(),
        0 <= base,
        0 <= length <= RAM_SIZE,
        0 <= offset,
    ensures
        s.ram_cleared(base, length).wf(),
        offset < length ==> s.ram_cleared(base, length).ram_at(base + offset) == 0,
        length <= offset < RAM_SIZE ==> s.ram_cleared(base, length).ram_at(base + offset)
            == s.ram_at(base + offset),
{
}

/// The state after bytes are written to the data port: nothing but memory,
/// the cursor and the command under way has changed; the cursor has moved on
/// by their number, modulo the memory size; and, where they are no more than
/// memory holds, each byte lies at its place from the old cursor on.
pub proof fn data_writes_fill_memory(s: ChipState, bytes: Seq<u8>)
    requires
        s.wf(),
    ensures
        s.data_written_all(bytes).wf(),
        s.data_written_all(bytes) == (ChipState {
            ram: s.data_written_all(bytes).ram,
            address: wrap_address(s.address + bytes.len()),
            awaiting_second: s.awaiting_second && bytes.len() == 0,
            ..s
        }),
        bytes.len() <= RAM_SIZE ==> forall|a: int|
            0 <= a < RAM_SIZE ==> #[trigger] s.data_written_all(bytes).ram[a] == if wrap_address(
                a - s.address,
            ) < bytes.len() {
                bytes[wrap_address(a - s.address)]
            } else {
                s.ram[a]
            },
    decreases bytes.len(),
{
    if bytes.len() > 0 {
        data_writes_fill_memory(s, bytes.drop_last());
        let before = s.data_written_all(bytes.drop_last());
        let after = s.data_written_all(bytes);
        assert(after == before.data_written(bytes.last()));
        if bytes.len() <= RAM_SIZE {
            assert forall|a: int| 0 <= a < RAM_SIZE implies #[trigger] after.ram[a]
                == if wrap_address(a - s.address) < bytes.len() {
                bytes[wrap_address(a - s.address)]
            } else {
                s.ram[a]
            } by {
                lemma_wrap_place(s.address, a, bytes.len() - 1);
            }
        }
    }
}

/// Auto-increment: after any number of writes to the data port the cursor
/// stands that number further on, modulo the memory size.
pub proof fn data_writes_advance_cursor(s: ChipState, bytes: Seq<u8>)
    requires
        s.wf(),
    ensures
        s.data_written_all(bytes).address == (s.address + bytes.len()) % 16384,
{
    data_writes_fill_memory(s, bytes);
}

/// The state after reads from the data port, and the bytes they return: the
/// first is the byte fetched ahead, each later one the byte at its place from
/// the old cursor on; memory is as it was.
pub proof fn data_reads_walk_memory(s: ChipState, count: nat)
    requires
        s.wf(),
    ensures
        s.data_read_all(count).wf(),
        s.data_read_all(count) == (ChipState {
            address: wrap_address(s.address + count),
            read_ahead: if count == 0 {
                s.read_ahead
            } else {
                s.ram[wrap_address(s.address + count)]
            },
            awaiting_second: s.awaiting_second && count == 0,
            ..s
        }),
        s.data_read_bytes(count).len() == count,
        forall|i: int|
            0 <= i < count ==> #[trigger] s.data_read_bytes(count)[i] == if i == 0 {
                s.read_ahead
            } else {
                s.ram[wrap_address(s.address + i)]
            },
    decreases count,
{
    if count > 0 {
        data_reads_walk_memory(s, (count - 1) as nat);
        let before = s.data_read_all((count - 1) as nat);
        assert(s.data_read_all(count) == before.data_read());
        assert(s.data_read_bytes(count) == s.data_read_bytes((count - 1) as nat).push(
            before.read_ahead,
        ));
    }
}

/// A write setup between commands points the cursor at the address and
/// changes nothing else but the command byte kept.
pub proof fn write_setup_points_cursor(s: ChipState, low: u8, high: u8)
    requires
        s.wf(),
        !s.awaiting_second,
        high < 0x40,
    ensures
        s.control_written(low).control_written(high | 0x40) == (ChipState {
            pending: low,
            address: (high as int) * 256 + low,
            ..s
        }),
        s.control_written(low).control_written(high | 0x40).wf(),
        s.control_written(low).control_write_result(high | 0x40) is Ok,
{
    assert((high | 0x40u8) & 0x80u8 == 0 && (high | 0x40u8) & 0x40u8 != 0) by (bit_vector)
        requires
            high < 0x40u8,
    ;
    lemma_command_address(low, high);
}

/// A read setup between commands points the cursor at the address, fetches
/// the byte there, and changes nothing else but the command byte kept.
pub proof fn read_setup_fetches_ahead(s: ChipState, low: u8, high: u8)
    requires
        s.wf(),
        !s.awaiting_second,
        high < 0x40,
    ensures
        s.control_written(low).control_written(high) == (ChipState {
            pending: low,
            address: (high as int) * 256 + low,
            read_ahead: s.ram[(high as int) * 256 + low],
            ..s
        }),
        s.control_written(low).control_written(high).wf(),
        s.control_written(low).control_write_result(high) is Ok,
{
    assert(high & 0x80u8 == 0 && high & 0x40u8 == 0) by (bit_vector)
        requires
            high < 0x40u8,
    ;
    lemma_command_address(low, high);
}

/// Round trip through the ports: a write setup at an address, then bytes
/// written to the data port, then a read setup at the same address and as
/// many reads, return the bytes written, in order.
///
/// The chip must be between commands at the start, and the bytes no more
/// than memory holds: a longer run overwrites its own beginning.
pub proof fn data_port_round_trip(s: ChipState, low: u8, high: u8, bytes: Seq<u8>)
    requires
        s.wf(),
        !s.awaiting_second,
        high < 0x40,
        bytes.len() <= RAM_SIZE,
    ensures
        s.control_written(low).control_written(high | 0x40).data_written_all(
            bytes,
        ).control_written(low).control_written(high).data_read_bytes(bytes.len()) == bytes,
{
    let address = (high as int) * 256 + low;
    let start = s.control_written(low).control_written(high | 0x40);
    write_setup_points_cursor(s, low, high);
    let written = start.data_written_all(bytes);
    data_writes_fill_memory(start, bytes);
    let ready = written.control_written(low).control_written(high);
    read_setup_fetches_ahead(written, low, high);
    let read = ready.data_read_bytes(bytes.len());
    data_reads_walk_memory(ready, bytes.len());
    assert forall|i: int| 0 <= i < bytes.len() implies read[i] == bytes[i] by {
        let place = wrap_address(address + i);
        lemma_wrap_place(address, place, i);
        assert(written.ram[place] == bytes[i]);
        assert(read[i] == written.ram[place]);
    }
    assert(read =~= bytes);
}

/// Rendering is idempotent: a second rendering with nothing changed in
/// between leaves the state, and so the frame, as the first left it.
pub proof fn rendering_is_idempotent(s: ChipState)
    requires
        s.wf(),
    ensures
        s.rendered().wf(),
        s.rendered().rendered() == s.rendered(),
{
    assert(s.rendered().rendered().frame =~= s.rendered().frame);
}

/// A mode change clears the frame: after a mode is selected, the next
/// rendering leaves every pixel that it does not draw from tile data zero.
pub proof fn mode_change_clears_frame(s: ChipState, mode: VideoMode)
    requires
        s.wf(),
        s.mode_set_result(mode) is Ok,
    ensures
        s.mode_set(mode).mode == mode,
        forall|i: int|
            0 <= i < s.frame.len() && !s.mode_set(mode).draws(i) ==> #[trigger] s.mode_set(
                mode,
            ).rendered().frame[i] == 0,
{
    lemma_mode_registers(mode, s.registers[0], s.registers[1]);
}

/// With the display off a rendering gives a black frame, whatever the
/// tables hold.
pub proof fn blanked_display_is_black(s: ChipState)
    requires
        s.wf(),
        !s.video_enabled(),
    ensures
        forall|i: int| 0 <= i < s.frame.len() ==> #[trigger] s.rendered().frame[i] == 0,
{
}

/// A chip set up to show one character: powered on with memory `ram`;
/// name table multiplier 0 and pattern table multiplier 1; Text mode;
/// register 7 at 0x91, which is colour 9 over colour 1; the pattern table
/// filled from `font`; the name table cleared, and `code` written to its
/// first entry; the display enabled.
pub open spec fn text_setup(ram: Seq<u8>, font: Seq<u8>, code: u8) -> ChipState {
    let tables = ChipState::power_on(ram).register_written(2, clamped(0, 15)).register_written(
        4,
        clamped(1, 7),
    );
    let colored = tables.mode_set(VideoMode::Text).register_written(7, 0x91);
    let filled = colored.ram_filled(colored.pattern_table_offset(), font, 0, font.len() as int);
    let cleared = filled.ram_cleared(filled.name_table_offset(), name_table_size(filled.mode));
    let named = cleared.ram_written(cleared.name_table_offset() + 0, code);
    named.register_written(1, blanking_register(true, named.registers[1]))
}

/// What the set-up of `text_setup` leaves behind, for a font of no more
/// bytes than memory holds: Text mode with the display on, the tables at 0
/// and 0x0800, `code` in the first name table entry and zero in the other
/// 959, and the first 2048 bytes of the font in the pattern table.
pub proof fn text_setup_state(ram: Seq<u8>, font: Seq<u8>, code: u8)
    requires
        ram.len() == RAM_SIZE,
        font.len() <= RAM_SIZE,
    ensures
        text_setup(ram, font, code).wf(),
        text_setup(ram, font, code).mode == VideoMode::Text,
        text_setup(ram, font, code).video_enabled(),
        text_setup(ram, font, code).mode_changed,
        text_setup(ram, font, code).name_table_offset() == 0,
        text_setup(ram, font, code).pattern_table_offset() == 0x0800,
        text_setup(ram, font, code).registers[7] == 0x91,
        text_setup(ram, font, code).ram[0] == code,
        forall|entry: int|
            1 <= entry < 960 ==> #[trigger] text_setup(ram, font, code).ram[entry] == 0,
        forall|k: int|
            0 <= k < font.len() && k < 2048 ==> #[trigger] text_setup(ram, font, code).ram[0x0800
                + k] == font[k],
{
    let on = ChipState::power_on(ram);
    assert(0u8 & 0x10 == 0 && 0u8 & 0x08 == 0 && 0u8 & 0x40 == 0) by (bit_vector);
    let tables = on.register_written(2, clamped(0, 15)).register_written(4, clamped(1, 7));
    assert(tables.registers =~= on.registers.update(4, 1u8));
    assert(tables.wf());
    lemma_mode_registers(VideoMode::Text, tables.registers[0], tables.registers[1]);
    assert(0u8 & !0x40u8 == 0 && (0u8 & !0x08u8) | 0x10u8 == 0x10) by (bit_vector);
    let text = tables.mode_set(VideoMode::Text);
    assert(text.registers =~= on.registers.update(4, 1u8).update(1, 0x10u8));
    assert(text.mode == VideoMode::Text);
    assert(text.wf());
    let colored = text.register_written(7, 0x91);
    assert(colored.wf());
    let filled = colored.ram_filled(0x0800, font, 0, font.len() as int);
    fill_places_each_byte(colored, 0x0800, font, 0, font.len() as int);
    assert forall|k: int| 0 <= k < font.len() && k < 2048 implies filled.ram[0x0800 + k]
        == font[k] by {
        lemma_wrap_place(0x0800, 0x0800 + k, k);
    }
    let cleared = filled.ram_cleared(0, 960);
    let named = cleared.ram_written(0, code);
    assert(named.wf());
    lemma_blanking_register(true, 0, 0x10);
    assert(0x10u8 | 0x40u8 == 0x50) by (bit_vector);
    let ready = named.register_written(1, blanking_register(true, named.registers[1]));
    assert(ready == text_setup(ram, font, code));
    assert(ready.ram == named.ram);
    assert forall|entry: int| 1 <= entry < 960 implies #[trigger] ready.ram[entry] == 0 by {}
    assert forall|k: int| 0 <= k < font.len() && k < 2048 implies #[trigger] ready.ram[0x0800
        + k] == font[k] by {
        assert(filled.ram[0x0800 + k] == font[k]);
    }
}

/// Text mode shows a glyph: after the set-up of `text_setup` a rendering
/// draws, in the top-left cell of rows of 240 pixels, the six high bits of
/// each of the eight font bytes of `code`, bit 7 leftmost, in colour 9 where
/// the bit is set and in colour 1 where it is clear.
///
/// The font must hold the glyph and be no longer than memory: a longer one
/// wraps round and overwrites its own beginning.
pub proof fn text_glyph_shows(ram: Seq<u8>, font: Seq<u8>, code: u8)
    requires
        ram.len() == RAM_SIZE,
        code * 8 + 8 <= font.len() <= RAM_SIZE,
    ensures
        text_setup(ram, font, code).rendered().frame_width == 240,
        forall|x: int, r: int|
            0 <= x < 6 && 0 <= r < 8 ==> text_setup(ram, font, code).rendered().frame[#[trigger] text_pixel_index(
                x,
                r,
            )] == if font[code * 8 + r] & (0x80u8 >> x) != 0 {
                0xFF7978u32
            } else {
                0x000000u32
            },
{
    let ready = text_setup(ram, font, code);
    text_setup_state(ram, font, code);
    assert(0x91u8 >> 4 == 9 && 0x91u8 & 0x0F == 1) by (bit_vector);
    assert(1u8 << 7u8 == 0x80u8 >> 0u8 && 1u8 << 6u8 == 0x80u8 >> 1u8 && 1u8 << 5u8 == 0x80u8
        >> 2u8 && 1u8 << 4u8 == 0x80u8 >> 3u8 && 1u8 << 3u8 == 0x80u8 >> 4u8 && 1u8 << 2u8
        == 0x80u8 >> 5u8) by (bit_vector);
    assert forall|x: int, r: int| 0 <= x < 6 && 0 <= r < 8 implies ready.rendered().frame[#[trigger] text_pixel_index(
        x,
        r,
    )] == if font[code * 8 + r] & (0x80u8 >> x) != 0 {
        0xFF7978u32
    } else {
        0x000000u32
    } by {
        let i = text_pixel_index(x, r);
        assert(i % 240 == x && i / 240 == r);
        assert(ready.ram[0x0800 + (code * 8 + r)] == font[code * 8 + r]);
    }
}

/// Text mode shows blank cells: after the set-up of `text_setup` with a font
/// whose glyph 0 is blank, a rendering draws every cell but the first in
/// colour 1, and leaves what lies behind the raster zero.
pub proof fn text_screen_is_blank_elsewhere(ram: Seq<u8>, font: Seq<u8>, code: u8)
    requires
        ram.len() == RAM_SIZE,
        8 <= font.len() <= RAM_SIZE,
        forall|r: int| 0 <= r < 8 ==> font[r] == 0,
    ensures
        forall|x: int, y: int|
            0 <= x < 240 && 0 <= y < 192 && !(x < 6 && y < 8) ==> text_setup(
                ram,
                font,
                code,
            ).rendered().frame[#[trigger] text_pixel_index(x, y)] == 0x000000,
        forall|i: int|
            240 * 192 <= i < 256 * 196 ==> #[trigger] text_setup(ram, font, code).rendered().frame[i]
                == 0,
{
    let ready = text_setup(ram, font, code);
    text_setup_state(ram, font, code);
    assert(0x91u8 >> 4 == 9 && 0x91u8 & 0x0F == 1) by (bit_vector);
    assert forall|x: int, y: int|
        0 <= x < 240 && 0 <= y < 192 && !(x < 6 && y < 8) implies ready.rendered().frame[#[trigger] text_pixel_index(
        x,
        y,
    )] == 0x000000 by {
        let i = text_pixel_index(x, y);
        assert(i % 240 == x && i / 240 == y);
        let entry = (y / 8) * 40 + x / 6;
        assert(1 <= entry < 960);
        assert(ready.ram[entry] == 0);
        assert(ready.ram[0x0800 + y % 8] == font[y % 8]);
        let bit = 1u8 << ((7 - x % 6) as u8);
        assert(0u8 & bit == 0) by (bit_vector);
    }
}

} // verus!
