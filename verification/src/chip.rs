//! The chip as the host holds it.

use crate::entropy::random_memory;
use crate::mode::VideoMode;
use crate::state::{ChipState, FRAME_HEIGHT, FRAME_SIZE, FRAME_WIDTH, RAM_SIZE, REGISTER_COUNT};
use vstd::prelude::*;

verus! {

/// A TMS9918A video display processor.
///
/// The host owns the value and drives it through the register, port and
/// table operations; `update` renders video memory into the frame buffer,
/// which the host then shows.
pub struct TMS9918A {
    // Frame buffer, retained between renderings.
    pub(crate) frame: Vec<u32>,
    // Row stride of the last rendering.
    pub(crate) frame_width: usize,
    // If true, clear the frame buffer on the next rendering.
    pub(crate) frame_clear: bool,
    // Video memory, 16KB: name table, color table and pattern table.
    pub(crate) vdp_ram: Vec<u8>,
    // Offsets into video memory of the tables, derived from registers 2 to 4.
    pub(crate) vdp_name_table_offset: usize,
    pub(crate) vdp_color_table_offset: usize,
    pub(crate) vdp_pattern_table_offset: usize,
    // Registers 0 to 7.
    pub(crate) vdp_register: Vec<u8>,
    // Video mode, derived from registers 0 and 1.
    pub(crate) vdp_mode: VideoMode,
    // Temporary data register: first byte of a control-port command.
    pub(crate) vdp_temp_data: u8,
    // Current memory address pointer.
    pub(crate) vdp_addr_pointer: u16,
    // True after the first command byte was sent.
    pub(crate) vdp_first_byte_saved_flag: bool,
    // Byte at the current memory address pointer.
    pub(crate) vdp_read_ahead: u8,
}

impl TMS9918A {
    /// The state of the chip as plain values.
    pub open(crate) spec fn view(&self) -> ChipState {
        ChipState {
            ram: self.vdp_ram@,
            registers: self.vdp_register@,
            mode: self.vdp_mode,
            mode_changed: self.frame_clear,
            pending: self.vdp_temp_data,
            awaiting_second: self.vdp_first_byte_saved_flag,
            address: self.vdp_addr_pointer as int,
            read_ahead: self.vdp_read_ahead,
            frame: self.frame@,
            frame_width: self.frame_width as int,
        }
    }

    /// Whether the table offsets that the chip keeps are those that registers
    /// 2, 3 and 4 give.
    pub open(crate) spec fn offsets_current(&self) -> bool {
        &&& self.vdp_name_table_offset == self@.name_table_offset()
        &&& self.vdp_color_table_offset == self@.color_table_offset()
        &&& self.vdp_pattern_table_offset == self@.pattern_table_offset()
    }

    /// The invariant of the chip: a well-formed state, and table offsets that
    /// are never stale.
    pub open spec fn wf(&self) -> bool {
        self@.wf() && self.offsets_current()
    }

    /// Powers the chip on with the given memory contents.
    pub fn with_memory(ram: Vec<u8>) -> (vdp: Self)
        requires
            ram@.len() == RAM_SIZE,
        ensures
            vdp.wf(),
            vdp@ == ChipState::power_on(ram@),
    {
        let frame: Vec<u32> = vec![0; FRAME_SIZE];
        let vdp_register: Vec<u8> = vec![0; REGISTER_COUNT];
        let vdp = TMS9918A {
            frame,
            frame_width: FRAME_WIDTH,
            frame_clear: false,
            vdp_ram: ram,
            vdp_name_table_offset: 0,
            vdp_color_table_offset: 0,
            vdp_pattern_table_offset: 0,
            vdp_register,
            vdp_mode: VideoMode::Gfx1,
            vdp_temp_data: 0,
            vdp_addr_pointer: 0,
            vdp_first_byte_saved_flag: false,
            vdp_read_ahead: 0,
        };
        assert(0u8 & 0x10 == 0 && 0u8 & 0x08 == 0 && 0u8 & 0x40 == 0) by (bit_vector);
        vdp
    }

    /// Powers the chip on. Video memory holds arbitrary bytes, as real memory
    /// does; everything else is as `with_memory` leaves it.
    pub fn new() -> (vdp: Self)
        ensures
            vdp.wf(),
            vdp@ == ChipState::power_on(vdp@.ram),
    {
        Self::with_memory(random_memory())
    }

    /// The frame buffer: 256x196 packed RGB pixels, of which the last
    /// rendering drew rows of `frame_width` pixels from index 0 on.
    pub fn frame(&self) -> (frame: &Vec<u32>)
        ensures
            frame@ == self@.frame,
    {
        &self.frame
    }

    /// Width in pixels at which the host shows the frame buffer.
    pub fn frame_width(&self) -> (width: usize)
        ensures
            width == self@.frame_width,
    {
        self.frame_width
    }

    /// Height in pixels at which the host shows the frame buffer.
    pub fn frame_height(&self) -> (height: usize)
        ensures
            height == FRAME_HEIGHT,
    {
        FRAME_HEIGHT
    }

    /// The contents of a register.
    pub fn register(&self, register: u8) -> (data: u8)
        requires
            self.wf(),
            register < 8,
        ensures
            data == self@.registers[register as int],
    {
        self.vdp_register[register as usize]
    }

    /// The display mode in force.
    pub fn video_mode(&self) -> (mode: VideoMode)
        ensures
            mode == self@.mode,
    {
        self.vdp_mode
    }

    /// Base address of the name table.
    pub fn name_table_offset(&self) -> (offset: usize)
        requires
            self.wf(),
        ensures
            offset == 0x0400 * self@.registers[2],
    {
        self.vdp_name_table_offset
    }

    /// Base address of the color table.
    pub fn color_table_offset(&self) -> (offset: usize)
        requires
            self.wf(),
        ensures
            offset == 0x0040 * self@.registers[3],
    {
        self.vdp_color_table_offset
    }

    /// Base address of the pattern table.
    pub fn pattern_table_offset(&self) -> (offset: usize)
        requires
            self.wf(),
        ensures
            offset == 0x0800 * self@.registers[4],
    {
        self.vdp_pattern_table_offset
    }

    /// The memory address pointer of the data port.
    pub fn address_pointer(&self) -> (address: u16)
        ensures
            address == self@.address,
    {
        self.vdp_addr_pointer
    }
}

} // verus!
