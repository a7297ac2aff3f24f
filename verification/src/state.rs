//! The mathematical model of the chip: its state as plain values. What each
//! operation makes of a state stands with the component the operation
//! belongs to.

use crate::mode::{decode_mode, display_enabled, VideoMode};
use vstd::prelude::*;

verus! {

/// Bytes of video memory.
pub const RAM_SIZE: usize = 16384;

/// Number of configuration registers.
pub const REGISTER_COUNT: usize = 8;

/// Width of the frame buffer in pixels, and of the Graphics I raster.
pub const FRAME_WIDTH: usize = 256;

/// Height of the frame buffer in pixels.
pub const FRAME_HEIGHT: usize = 196;

/// Pixels in the frame buffer: `FRAME_WIDTH * FRAME_HEIGHT`.
pub const FRAME_SIZE: usize = 50176;

/// Width of the Text raster in pixels.
pub const TEXT_WIDTH: usize = 240;

/// Pixel rows that the display modes draw; the rows below are border.
pub const ACTIVE_HEIGHT: usize = 192;

/// An address reduced to the fourteen bits that the chip decodes.
pub open spec fn wrap_address(address: int) -> int {
    address % 16384
}

/// The frame buffer with every pixel zero, which is black.
pub open spec fn blank_frame() -> Seq<u32> {
    Seq::new(FRAME_SIZE as nat, |i: int| 0u32)
}

/// Everything the chip holds, as plain values.
#[verifier::ext_equal]
pub struct ChipState {
    /// Video memory: name table, color table and pattern table.
    pub ram: Seq<u8>,
    /// Registers 0 to 7.
    pub registers: Seq<u8>,
    /// The mode last derived from registers 0 and 1.
    pub mode: VideoMode,
    /// Set by every mode derivation; the next rendering clears the frame
    /// buffer and this flag.
    pub mode_changed: bool,
    /// First byte of a two-byte control-port command.
    pub pending: u8,
    /// Whether the next control-port byte completes a command.
    pub awaiting_second: bool,
    /// Memory cursor of the data port.
    pub address: int,
    /// The byte that the next data-port read returns.
    pub read_ahead: u8,
    /// Packed RGB pixels, retained between renderings.
    pub frame: Seq<u32>,
    /// Row stride of the last rendering: how wide the host shows the frame.
    pub frame_width: int,
}

impl ChipState {
    /// The shape of every state that the operations produce: fixed sizes, a
    /// cursor inside memory, and a mode that agrees with registers 0 and 1
    /// whenever their mode bits select one.
    pub open spec fn wf(self) -> bool {
        &&& self.ram.len() == RAM_SIZE
        &&& self.registers.len() == REGISTER_COUNT
        &&& self.frame.len() == FRAME_SIZE
        &&& 0 <= self.address < RAM_SIZE
        &&& (self.frame_width == FRAME_WIDTH || self.frame_width == TEXT_WIDTH)
        &&& (decode_mode(self.registers[0], self.registers[1]) matches Ok(mode) ==> self.mode
            == mode)
    }

    /// The state after power-on with the given memory contents: registers
    /// cleared, Graphics I, display off, a black frame.
    pub open spec fn power_on(ram: Seq<u8>) -> ChipState {
        ChipState {
            ram,
            registers: Seq::new(REGISTER_COUNT as nat, |i: int| 0u8),
            mode: VideoMode::Gfx1,
            mode_changed: false,
            pending: 0,
            awaiting_second: false,
            address: 0,
            read_ahead: 0,
            frame: blank_frame(),
            frame_width: FRAME_WIDTH as int,
        }
    }

    /// Base address of the name table: register 2 times 0x0400.
    pub open spec fn name_table_offset(self) -> int {
        0x0400 * self.registers[2]
    }

    /// Base address of the color table: register 3 times 0x0040.
    pub open spec fn color_table_offset(self) -> int {
        0x0040 * self.registers[3]
    }

    /// Base address of the pattern table: register 4 times 0x0800.
    pub open spec fn pattern_table_offset(self) -> int {
        0x0800 * self.registers[4]
    }

    /// Whether the blanking bit of register 1 is set.
    pub open spec fn video_enabled(self) -> bool {
        display_enabled(self.registers[1])
    }

    /// The byte at an address, all addresses taken modulo the memory size.
    pub open spec fn ram_at(self, address: int) -> u8 {
        self.ram[wrap_address(address)]
    }
}

} // verus!
