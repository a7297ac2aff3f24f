//! The port protocol: two-byte commands on the control port, and the
//! auto-incrementing memory cursor behind the data port.

use crate::chip::TMS9918A;
use crate::mode::ConfigError;
use crate::state::{wrap_address, ChipState};
use vstd::prelude::*;

verus! {

/// Bit 7 of the second command byte.
pub open spec fn command_bit7(data: u8) -> bool {
    data & 0x80 != 0
}

/// Bit 6 of the second command byte.
pub open spec fn command_bit6(data: u8) -> bool {
    data & 0x40 != 0
}

/// The register that a register-write command names: the low three bits of
/// its second byte.
pub open spec fn command_register(data: u8) -> u8 {
    data & 0x07
}

/// The address that a memory command names: the low six bits of its second
/// byte above the eight bits of its first byte.
pub open spec fn command_address(low: u8, high: u8) -> u16 {
    ((high as u16 & 0x3F) << 8) | (low as u16 & 0x00FF)
}

/// The address of a memory command as a number: fourteen bits, and the same
/// whether or not the command sets bit 6.
pub proof fn lemma_command_address(low: u8, high: u8)
    ensures
        command_address(low, high) == (high % 64) * 256 + low,
        command_address(low, high) < 16384,
        command_address(low, high | 0x40) == command_address(low, high),
{
    assert((((high as u16 & 0x3F) << 8) | (low as u16 & 0x00FF)) == (high % 64) as u16 * 256
        + low as u16) by (bit_vector);
    assert(((((high | 0x40u8) as u16 & 0x3F) << 8) | (low as u16 & 0x00FF)) == (((high as u16
        & 0x3F) << 8) | (low as u16 & 0x00FF))) by (bit_vector);
}

impl ChipState {
    /// The state after a byte is written to the control port.
    ///
    /// The first byte of a command is kept. The second byte carries the
    /// command in its bits 7 and 6: 1 0 writes the first byte to a register;
    /// 0 1 points the cursor at an address for writing; 0 0 points it there
    /// for reading and fetches the byte at it; 1 1 is no command and does
    /// nothing. Every second byte ends the command.
    pub open spec fn control_written(self, data: u8) -> ChipState {
        if !self.awaiting_second {
            ChipState { pending: data, awaiting_second: true, ..self }
        } else {
            let rest = ChipState { awaiting_second: false, ..self };
            let address = command_address(self.pending, data) as int;
            if command_bit7(data) && !command_bit6(data) {
                rest.register_written(command_register(data) as int, self.pending)
            } else if !command_bit7(data) && command_bit6(data) {
                ChipState { address, ..rest }
            } else if !command_bit7(data) && !command_bit6(data) {
                ChipState { address, read_ahead: self.ram[address], ..rest }
            } else {
                rest
            }
        }
    }

    /// What a write to the control port reports: the outcome of the register
    /// write, where the byte completes one.
    pub open spec fn control_write_result(self, data: u8) -> Result<(), ConfigError> {
        if self.awaiting_second && command_bit7(data) && !command_bit6(data) {
            self.register_write_result(command_register(data) as int, self.pending)
        } else {
            Ok(())
        }
    }

    /// The state after a byte is written to the data port: the byte is
    /// stored at the cursor, the cursor moves on by one and wraps at the end
    /// of memory, and a command under way is abandoned.
    pub open spec fn data_written(self, data: u8) -> ChipState {
        ChipState {
            awaiting_second: false,
            ram: self.ram.update(self.address, data),
            address: wrap_address(self.address + 1),
            ..self
        }
    }

    /// The state after a byte is read from the data port, which is the byte
    /// fetched ahead: the cursor moves on by one and wraps, the byte at its
    /// new place is fetched, and a command under way is abandoned.
    pub open spec fn data_read(self) -> ChipState {
        let address = wrap_address(self.address + 1);
        ChipState { awaiting_second: false, address, read_ahead: self.ram[address], ..self }
    }

    /// The state after the bytes are written to the data port, first to last.
    pub open spec fn data_written_all(self, bytes: Seq<u8>) -> ChipState
        decreases bytes.len(),
    {
        if bytes.len() == 0 {
            self
        } else {
            self.data_written_all(bytes.drop_last()).data_written(bytes.last())
        }
    }

    /// The state after `count` reads from the data port.
    pub open spec fn data_read_all(self, count: nat) -> ChipState
        decreases count,
    {
        if count == 0 {
            self
        } else {
            self.data_read_all((count - 1) as nat).data_read()
        }
    }

    /// The bytes that `count` reads from the data port return, first to last.
    pub open spec fn data_read_bytes(self, count: nat) -> Seq<u8>
        decreases count,
    {
        if count == 0 {
            Seq::empty()
        } else {
            self.data_read_bytes((count - 1) as nat).push(
                self.data_read_all((count - 1) as nat).read_ahead,
            )
        }
    }
}

impl TMS9918A {
    /// Writes to the control port.
    ///
    /// Commands are those of the TMS9918A data manual: two bytes, of which
    /// the second says what to do with the first. A register write whose mode
    /// bits select no mode is reported; the command is over all the same.
    pub fn write_control_port(&mut self, data: u8) -> (result: Result<(), ConfigError>)
        requires
            old(self).wf(),
        ensures
            final(self).wf(),
            final(self)@ == old(self)@.control_written(data),
            result == old(self)@.control_write_result(data),
    {
        if self.vdp_first_byte_saved_flag == false {
            // this is the first byte of the command, save it
            self.vdp_temp_data = data;
            self.vdp_first_byte_saved_flag = true;
            return Ok(());
        }
        // this is the second byte of the command, execute the command
        proof {
            assert(1u8 << 7 == 0x80u8 && 1u8 << 6 == 0x40u8) by (bit_vector);
            assert(data & 0x07 < 8) by (bit_vector);
            lemma_command_address(self.vdp_temp_data, data);
        }
        self.vdp_first_byte_saved_flag = false;
        if (data & (1 << 7) != 0) && (data & (1 << 6) == 0) {
            // bit 7 is set and bit 6 is clear, this is a write to a register
            let register = data & 0b00000111;
            let register_value = self.vdp_temp_data;
            return self.write_register(register, register_value);
        }
        if (data & (1 << 7) == 0) && (data & (1 << 6) != 0) {
            // bit 7 is clear and bit 6 is set, this is a write to memory
            let address = ((data as u16 & 0b00111111) << 8) | (self.vdp_temp_data as u16 & 0x00FF);
            self.vdp_addr_pointer = address;
            return Ok(());
        }
        if (data & (1 << 7) == 0) && (data & (1 << 6) == 0) {
            // bit 7 is clear and bit 6 is clear, this is a read from memory
            let address = ((data as u16 & 0b00111111) << 8) | (self.vdp_temp_data as u16 & 0x00FF);
            self.vdp_addr_pointer = address;
            self.vdp_read_ahead = self.read_ram(address as usize);
            return Ok(());
        }
        // bit 7 is set and bit 6 is set, this is no command
        Ok(())
    }

    /// Writes to the data port.
    ///
    /// As on the TMS9918A, the address pointer moves on by one after each
    /// write; after the last address it returns to the first.
    pub fn write_data_port(&mut self, data: u8)
        requires
            old(self).wf(),
        ensures
            final(self).wf(),
            final(self)@ == old(self)@.data_written(data),
    {
        self.vdp_first_byte_saved_flag = false;
        let address = self.vdp_addr_pointer;
        self.write_ram(address as usize, data);
        self.vdp_addr_pointer = (self.vdp_addr_pointer + 1) % 16384;
    }

    /// Reads from the data port.
    ///
    /// As on the TMS9918A, the read returns the byte fetched ahead; the
    /// address pointer then moves on by one, returning to the first address
    /// after the last, and the byte at its new place is fetched.
    pub fn read_data_port(&mut self) -> (data: u8)
        requires
            old(self).wf(),
        ensures
            final(self).wf(),
            final(self)@ == old(self)@.data_read(),
            data == old(self)@.read_ahead,
    {
        self.vdp_first_byte_saved_flag = false;
        let data = self.vdp_read_ahead;
        self.vdp_addr_pointer = (self.vdp_addr_pointer + 1) % 16384;
        self.vdp_read_ahead = self.read_ram(self.vdp_addr_pointer as usize);
        data
    }
}

} // verus!
