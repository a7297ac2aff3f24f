//! The register file: register writes, the display mode they select, the
//! table base addresses, display blanking and reset.

use crate::chip::TMS9918A;
use crate::entropy::random_memory;
use crate::mode::{decode_mode, decode_video_mode, display_enabled, ConfigError, VideoMode};
use crate::state::{ChipState, RAM_SIZE};
use vstd::prelude::*;

verus! {

/// The contents that registers 0 and 1 take when a mode is selected: only the
/// mode bits change, to the pattern of the mode.
pub open spec fn mode_registers(mode: VideoMode, r0: u8, r1: u8) -> (u8, u8) {
    match mode {
        VideoMode::Gfx1 => (r0 & !0x40u8, r1 & !0x18u8),
        VideoMode::Gfx2 => (r0 | 0x40u8, r1 & !0x18u8),
        VideoMode::Multicolor => (r0 & !0x40u8, (r1 & !0x10u8) | 0x08u8),
        VideoMode::Text => (r0 & !0x40u8, (r1 & !0x08u8) | 0x10u8),
    }
}

/// The contents that register 1 takes when the display is switched: only
/// the blanking bit changes.
pub open spec fn blanking_register(enable: bool, r1: u8) -> u8 {
    if enable {
        r1 | 0x40u8
    } else {
        r1 & !0x40u8
    }
}

/// A table multiplier held to its maximum.
pub open spec fn clamped(multiplier: u8, maximum: u8) -> u8 {
    if multiplier > maximum {
        maximum
    } else {
        multiplier
    }
}

/// Selecting a mode leaves registers 0 and 1 with mode bits that decode to
/// that mode, and leaves the blanking bit as it was.
pub proof fn lemma_mode_registers(mode: VideoMode, r0: u8, r1: u8)
    ensures
        decode_mode(mode_registers(mode, r0, r1).0, mode_registers(mode, r0, r1).1) == Ok::<
            VideoMode,
            ConfigError,
        >(mode),
        display_enabled(mode_registers(mode, r0, r1).1) == display_enabled(r1),
{
    assert((r0 & !0x40u8) & 0x40u8 == 0 && (r0 | 0x40u8) & 0x40u8 != 0) by (bit_vector);
    assert((r1 & !0x18u8) & 0x10u8 == 0 && (r1 & !0x18u8) & 0x08u8 == 0 && (r1 & !0x18u8) & 0x40u8
        == r1 & 0x40u8) by (bit_vector);
    assert(((r1 & !0x10u8) | 0x08u8) & 0x10u8 == 0 && ((r1 & !0x10u8) | 0x08u8) & 0x08u8 != 0 && ((
    r1 & !0x10u8) | 0x08u8) & 0x40u8 == r1 & 0x40u8) by (bit_vector);
    assert(((r1 & !0x08u8) | 0x10u8) & 0x10u8 != 0 && ((r1 & !0x08u8) | 0x10u8) & 0x08u8 == 0 && ((
    r1 & !0x08u8) | 0x10u8) & 0x40u8 == r1 & 0x40u8) by (bit_vector);
}

/// Switching the display sets the blanking bit as asked and leaves the mode
/// bits of register 1 as they were.
pub proof fn lemma_blanking_register(enable: bool, r0: u8, r1: u8)
    ensures
        display_enabled(blanking_register(enable, r1)) == enable,
        decode_mode(r0, blanking_register(enable, r1)) == decode_mode(r0, r1),
{
    assert((r1 | 0x40u8) & 0x40u8 != 0 && (r1 | 0x40u8) & 0x10u8 == r1 & 0x10u8 && (r1 | 0x40u8)
        & 0x08u8 == r1 & 0x08u8) by (bit_vector);
    assert((r1 & !0x40u8) & 0x40u8 == 0 && (r1 & !0x40u8) & 0x10u8 == r1 & 0x10u8 && (r1 & !0x40u8)
        & 0x08u8 == r1 & 0x08u8) by (bit_vector);
}

impl ChipState {
    /// What a write to a register reports: for registers 0 and 1 the mode
    /// bits are decoded anew, and bits that select no mode are an error.
    pub open spec fn register_write_result(self, register: int, data: u8) -> Result<
        (),
        ConfigError,
    > {
        let registers = self.registers.update(register, data);
        if register == 0 || register == 1 {
            match decode_mode(registers[0], registers[1]) {
                Ok(_) => Ok(()),
                Err(e) => Err(e),
            }
        } else {
            Ok(())
        }
    }

    /// The state after a write to a register. The byte is always stored. A
    /// write to register 0 or 1 whose mode bits select a mode sets that mode
    /// and marks it as changed, also where it is the mode already set.
    pub open spec fn register_written(self, register: int, data: u8) -> ChipState {
        let registers = self.registers.update(register, data);
        if register == 0 || register == 1 {
            match decode_mode(registers[0], registers[1]) {
                Ok(mode) => ChipState { registers, mode, mode_changed: true, ..self },
                Err(_) => ChipState { registers, ..self },
            }
        } else {
            ChipState { registers, ..self }
        }
    }

    /// What selecting a mode reports: the error of the first of its two
    /// register writes that fails.
    pub open spec fn mode_set_result(self, mode: VideoMode) -> Result<(), ConfigError> {
        let (r0, r1) = mode_registers(mode, self.registers[0], self.registers[1]);
        match self.register_write_result(0, r0) {
            Ok(_) => self.register_written(0, r0).register_write_result(1, r1),
            Err(e) => Err(e),
        }
    }

    /// The state after selecting a mode: register 0 is written, then, unless
    /// that write failed, register 1.
    pub open spec fn mode_set(self, mode: VideoMode) -> ChipState {
        let (r0, r1) = mode_registers(mode, self.registers[0], self.registers[1]);
        match self.register_write_result(0, r0) {
            Ok(_) => self.register_written(0, r0).register_written(1, r1),
            Err(_) => self.register_written(0, r0),
        }
    }

    /// The state after a warm reset: registers 0 and 1 cleared, Graphics I,
    /// the port protocol at rest; memory and the other registers stay.
    pub open spec fn warm_reset(self) -> ChipState {
        ChipState {
            registers: self.registers.update(0, 0u8).update(1, 0u8),
            mode: VideoMode::Gfx1,
            mode_changed: true,
            pending: 0,
            awaiting_second: false,
            address: 0,
            read_ahead: 0,
            ..self
        }
    }

    /// The state after a cold reset: as after a warm reset, with every byte
    /// of memory replaced by the given contents.
    pub open spec fn cold_reset(self, ram: Seq<u8>) -> ChipState {
        ChipState { ram, ..self.warm_reset() }
    }
}

impl TMS9918A {
    /// Writes a register.
    ///
    /// The byte is stored and the table offsets follow it. A write to
    /// register 0 or 1 derives the display mode anew; mode bits that select
    /// no mode are reported, and leave the mode in force as it was.
    pub fn write_register(&mut self, register: u8, data: u8) -> (result: Result<
        (),
        ConfigError,
    >)
        requires
            old(self).wf(),
            register < 8,
        ensures
            final(self).wf(),
            final(self)@ == old(self)@.register_written(register as int, data),
            result == old(self)@.register_write_result(register as int, data),
    {
        // write register value
        self.vdp_register[register as usize] = data;

        // write offset values
        self.vdp_name_table_offset = self.vdp_register[2] as usize * 0x0400;
        self.vdp_color_table_offset = self.vdp_register[3] as usize * 0x0040;
        self.vdp_pattern_table_offset = self.vdp_register[4] as usize * 0x0800;

        // write video mode
        if register == 0 || register == 1 {
            match decode_video_mode(self.vdp_register[0], self.vdp_register[1]) {
                Ok(mode) => {
                    self.vdp_mode = mode;
                    // clear framebuffer on next update
                    self.frame_clear = true;
                    Ok(())
                },
                Err(e) => Err(e),
            }
        } else {
            Ok(())
        }
    }

    /// Sets the video mode by writing the mode bits of registers 0 and 1.
    ///
    /// Register 0 is written first. From Text or Multicolor, Graphics II
    /// cannot be selected directly: the first write would combine the bitmap
    /// bit with the mode bit still in register 1, and is reported. Select
    /// Graphics I in between.
    pub fn set_video_mode(&mut self, mode: VideoMode) -> (result: Result<(), ConfigError>)
        requires
            old(self).wf(),
        ensures
            final(self).wf(),
            final(self)@ == old(self)@.mode_set(mode),
            result == old(self)@.mode_set_result(mode),
            result is Ok ==> final(self)@.mode == mode && final(self)@.mode_changed,
    {
        let (r0, r1) = match mode {
            VideoMode::Gfx1 => {
                let r0 = self.vdp_register[0] & !(0b01000000);
                let r1 = self.vdp_register[1] & !(0b00011000);
                (r0, r1)
            },
            VideoMode::Gfx2 => {
                let r0 = self.vdp_register[0] | (0b01000000);
                let r1 = self.vdp_register[1] & !(0b00011000);
                (r0, r1)
            },
            VideoMode::Multicolor => {
                let r0 = self.vdp_register[0] & !(0b01000000);
                let r1 = (self.vdp_register[1] & !(0b00010000)) | 0b00001000;
                (r0, r1)
            },
            VideoMode::Text => {
                let r0 = self.vdp_register[0] & !(0b01000000);
                let r1 = (self.vdp_register[1] & !(0b00001000)) | 0b00010000;
                (r0, r1)
            },
        };
        proof {
            lemma_mode_registers(mode, self.vdp_register@[0], self.vdp_register@[1]);
        }
        match self.write_register(0, r0) {
            Ok(_) => self.write_register(1, r1),
            Err(e) => Err(e),
        }
    }

    /// Enables or disables the video display by writing register 1 with the
    /// blanking bit set or cleared.
    ///
    /// The display is off after power-on and after a reset, which gives a
    /// black screen. The write derives the mode anew, so the next rendering
    /// starts from a black frame. While registers 0 and 1 select a mode the
    /// call succeeds and the mode stays.
    pub fn enable_video(&mut self, enable: bool) -> (result: Result<(), ConfigError>)
        requires
            old(self).wf(),
        ensures
            final(self).wf(),
            final(self)@ == old(self)@.register_written(
                1,
                blanking_register(enable, old(self)@.registers[1]),
            ),
            result == old(self)@.register_write_result(
                1,
                blanking_register(enable, old(self)@.registers[1]),
            ),
            final(self)@.video_enabled() == enable,
            result == match decode_mode(old(self)@.registers[0], old(self)@.registers[1]) {
                Ok(_) => Ok::<(), ConfigError>(()),
                Err(e) => Err(e),
            },
            final(self)@.mode == old(self)@.mode,
    {
        let r1 = if enable {
            self.vdp_register[1] | (1 << 6)
        } else {
            self.vdp_register[1] & !(1 << 6)
        };
        proof {
            assert(1u8 << 6 == 0x40u8) by (bit_vector);
            lemma_blanking_register(enable, self.vdp_register@[0], self.vdp_register@[1]);
        }
        self.write_register(1, r1)
    }

    /// Resets the chip without touching video memory: registers 0 and 1 are
    /// cleared, which selects Graphics I with the display off, and the port
    /// protocol returns to rest.
    pub fn warm_reset(&mut self)
        requires
            old(self).wf(),
        ensures
            final(self).wf(),
            final(self)@ == old(self)@.warm_reset(),
    {
        proof {
            assert(0u8 & 0x10 == 0 && 0u8 & 0x08 == 0 && 0u8 & 0x40 == 0) by (bit_vector);
        }
        // The first write can only object to what register 1 still holds,
        // which the second write clears.
        let _ = self.write_register(0, 0);
        let _ = self.write_register(1, 0);
        self.vdp_temp_data = 0;
        self.vdp_addr_pointer = 0;
        self.vdp_read_ahead = 0;
        self.vdp_first_byte_saved_flag = false;
    }

    /// Resets the chip as `warm_reset` does and replaces video memory with
    /// the given contents.
    pub fn cold_reset_with(&mut self, ram: Vec<u8>)
        requires
            old(self).wf(),
            ram@.len() == RAM_SIZE,
        ensures
            final(self).wf(),
            final(self)@ == old(self)@.cold_reset(ram@),
    {
        self.warm_reset();
        self.vdp_ram = ram;
    }

    /// Resets the chip as `warm_reset` does and replaces video memory with
    /// arbitrary bytes, as `cold_reset_with` does with given ones.
    pub fn cold_reset(&mut self)
        requires
            old(self).wf(),
        ensures
            final(self).wf(),
            final(self)@ == old(self)@.cold_reset(final(self)@.ram),
    {
        self.cold_reset_with(random_memory());
    }

    /// Sets the name table address multiplier in register 2, at most 15.
    ///
    /// The name table base address is the multiplier times 0x0400.
    pub fn set_name_table_multiplier(&mut self, multiplier: u8)
        requires
            old(self).wf(),
        ensures
            final(self).wf(),
            final(self)@ == old(self)@.register_written(2, clamped(multiplier, 15)),
    {
        let mut multiplier = multiplier;
        if multiplier > 15 {
            multiplier = 15;
        }
        let _ = self.write_register(2, multiplier);
    }

    /// Sets the color table address multiplier in register 3.
    ///
    /// The color table base address is the multiplier times 0x0040.
    pub fn set_color_table_multiplier(&mut self, multiplier: u8)
        requires
            old(self).wf(),
        ensures
            final(self).wf(),
            final(self)@ == old(self)@.register_written(3, multiplier),
    {
        let _ = self.write_register(3, multiplier);
    }

    /// Sets the pattern table address multiplier in register 4, at most 7.
    ///
    /// The pattern table base address is the multiplier times 0x0800.
    pub fn set_pattern_table_multiplier(&mut self, multiplier: u8)
        requires
            old(self).wf(),
        ensures
            final(self).wf(),
            final(self)@ == old(self)@.register_written(4, clamped(multiplier, 7)),
    {
        let mut multiplier = multiplier;
        if multiplier > 7 {
            multiplier = 7;
        }
        let _ = self.write_register(4, multiplier);
    }
}

} // verus!
