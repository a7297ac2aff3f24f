//! Video memory: raw access by address, and access to the name, color and
//! pattern tables by offset from their base addresses.

use crate::chip::TMS9918A;
use crate::mode::VideoMode;
use crate::state::{wrap_address, ChipState, RAM_SIZE};
use vstd::arithmetic::div_mod::lemma_add_mod_noop_right;
use vstd::prelude::*;

verus! {

/// Bytes of the name table in Text mode: 40x24 tiles.
pub const TEXT_NAME_TABLE_SIZE: usize = 960;

/// Bytes of the name table in the other modes: 32x24 tiles.
pub const NAME_TABLE_SIZE: usize = 768;

/// How many bytes of the name table a mode shows.
pub open spec fn name_table_size(mode: VideoMode) -> int {
    if mode == VideoMode::Text {
        TEXT_NAME_TABLE_SIZE as int
    } else {
        NAME_TABLE_SIZE as int
    }
}

impl ChipState {
    /// The state after one byte is stored. The address wraps at the end of
    /// memory.
    pub open spec fn ram_written(self, address: int, data: u8) -> ChipState {
        ChipState { ram: self.ram.update(wrap_address(address), data), ..self }
    }

    /// The state after `data[from]`, ..., `data[to - 1]` are stored, in this
    /// order, each at `base` plus its own index.
    pub open spec fn ram_filled(self, base: int, data: Seq<u8>, from: int, to: int) -> ChipState
        decreases to - from,
    {
        if to <= from {
            self
        } else {
            self.ram_filled(base, data, from, to - 1).ram_written(base + to - 1, data[to - 1])
        }
    }

    /// The state after the `length` bytes from `base` on are zeroed.
    pub open spec fn ram_cleared(self, base: int, length: int) -> ChipState {
        ChipState {
            ram: Seq::new(
                RAM_SIZE as nat,
                |a: int|
                    if wrap_address(a - base) < length {
                        0u8
                    } else {
                        self.ram[a]
                    },
            ),
            ..self
        }
    }
}

/// The address in memory of an offset into a table.
fn table_address(base: usize, offset: usize) -> (address: usize)
    requires
        base <= 0x0800 * 255,
    ensures
        address == wrap_address(base + offset),
        address < RAM_SIZE,
{
    proof {
        lemma_add_mod_noop_right(base as int, offset as int, 16384);
    }
    (base + offset % RAM_SIZE) % RAM_SIZE
}

impl TMS9918A {
    /// Writes memory contents.
    pub fn write_ram(&mut self, address: usize, data: u8)
        requires
            old(self).wf(),
            address < RAM_SIZE,
        ensures
            final(self).wf(),
            final(self)@ == old(self)@.ram_written(address as int, data),
    {
        self.vdp_ram[address] = data;
    }

    /// Reads memory contents.
    pub fn read_ram(&mut self, address: usize) -> (data: u8)
        requires
            old(self).wf(),
            address < RAM_SIZE,
        ensures
            *final(self) == *old(self),
            data == old(self)@.ram[address as int],
    {
        let data = self.vdp_ram[address];
        data
    }

    /// Writes name table contents.
    ///
    /// The name table offset register must be set first.
    pub fn write_name_table(&mut self, offset: usize, data: u8)
        requires
            old(self).wf(),
        ensures
            final(self).wf(),
            final(self)@ == old(self)@.ram_written(old(self)@.name_table_offset() + offset, data),
    {
        let address = table_address(self.vdp_name_table_offset, offset);
        self.vdp_ram[address] = data;
    }

    /// Reads name table contents.
    ///
    /// The name table offset register must be set first.
    pub fn read_name_table(&self, offset: usize) -> (data: u8)
        requires
            self.wf(),
        ensures
            data == self@.ram_at(self@.name_table_offset() + offset),
    {
        self.vdp_ram[table_address(self.vdp_name_table_offset, offset)]
    }

    /// Fills name table contents from an array: entry `i` of the table takes
    /// `array[i]`, for the `length` entries from `offset` on.
    ///
    /// The name table offset register must be set first.
    pub fn fill_name_table(&mut self, array: &[u8], offset: usize, length: usize)
        requires
            old(self).wf(),
            offset + length <= array@.len(),
        ensures
            final(self).wf(),
            final(self)@ == old(self)@.ram_filled(
                old(self)@.name_table_offset(),
                array@,
                offset as int,
                offset + length,
            ),
    {
        let ghost base = self@.name_table_offset();
        assert(array@.len() == array.len());
        let end: usize = offset + length;
        let mut i: usize = offset;
        while i < end
            invariant
                offset <= i <= end <= array@.len(),
                self.wf(),
                self@.name_table_offset() == base,
                self@ == old(self)@.ram_filled(base, array@, offset as int, i as int),
            decreases end - i,
        {
            self.write_name_table(i, array[i]);
            i += 1;
        }
    }

    /// Clears the screen by zeroing the name table: 960 bytes in Text mode,
    /// 768 bytes in the other modes.
    ///
    /// The name table offset register must be set first.
    pub fn clear_name_table(&mut self)
        requires
            old(self).wf(),
        ensures
            final(self).wf(),
            final(self)@ == old(self)@.ram_cleared(
                old(self)@.name_table_offset(),
                name_table_size(old(self)@.mode),
            ),
    {
        let size: usize = if self.vdp_mode == VideoMode::Text {
            // text mode's name table is 960 bytes
            TEXT_NAME_TABLE_SIZE
        } else {
            // all other modes' name tables are 768 bytes
            NAME_TABLE_SIZE
        };
        let ghost base = self@.name_table_offset();
        let mut i: usize = 0;
        while i < size
            invariant
                i <= size <= 960,
                self.wf(),
                self@.name_table_offset() == base,
                self@ == old(self)@.ram_cleared(base, i as int),
            decreases size - i,
        {
            self.write_name_table(i, 0);
            i += 1;
        }
    }

    /// Writes color table contents.
    ///
    /// The color table offset register must be set first.
    pub fn write_color_table(&mut self, offset: usize, data: u8)
        requires
            old(self).wf(),
        ensures
            final(self).wf(),
            final(self)@ == old(self)@.ram_written(
                old(self)@.color_table_offset() + offset,
                data,
            ),
    {
        let address = table_address(self.vdp_color_table_offset, offset);
        self.vdp_ram[address] = data;
    }

    /// Reads color table contents.
    ///
    /// The color table offset register must be set first.
    pub fn read_color_table(&self, offset: usize) -> (data: u8)
        requires
            self.wf(),
        ensures
            data == self@.ram_at(self@.color_table_offset() + offset),
    {
        self.vdp_ram[table_address(self.vdp_color_table_offset, offset)]
    }

    /// Fills color table contents from an array: entry `i` of the table
    /// takes `array[i]`, for the `length` entries from `offset` on.
    ///
    /// The color table offset register must be set first.
    pub fn fill_color_table(&mut self, array: &[u8], offset: usize, length: usize)
        requires
            old(self).wf(),
            offset + length <= array@.len(),
        ensures
            final(self).wf(),
            final(self)@ == old(self)@.ram_filled(
                old(self)@.color_table_offset(),
                array@,
                offset as int,
                offset + length,
            ),
    {
        let ghost base = self@.color_table_offset();
        assert(array@.len() == array.len());
        let end: usize = offset + length;
        let mut i: usize = offset;
        while i < end
            invariant
                offset <= i <= end <= array@.len(),
                self.wf(),
                self@.color_table_offset() == base,
                self@ == old(self)@.ram_filled(base, array@, offset as int, i as int),
            decreases end - i,
        {
            self.write_color_table(i, array[i]);
            i += 1;
        }
    }

    /// Writes pattern table contents.
    ///
    /// The pattern table offset register must be set first.
    pub fn write_pattern_table(&mut self, offset: usize, data: u8)
        requires
            old(self).wf(),
        ensures
            final(self).wf(),
            final(self)@ == old(self)@.ram_written(
                old(self)@.pattern_table_offset() + offset,
                data,
            ),
    {
        let address = table_address(self.vdp_pattern_table_offset, offset);
        self.vdp_ram[address] = data;
    }

    /// Reads pattern table contents.
    ///
    /// The pattern table offset register must be set first.
    pub fn read_pattern_table(&self, offset: usize) -> (data: u8)
        requires
            self.wf(),
        ensures
            data == self@.ram_at(self@.pattern_table_offset() + offset),
    {
        self.vdp_ram[table_address(self.vdp_pattern_table_offset, offset)]
    }

    /// Fills pattern table contents from an array: entry `i` of the table
    /// takes `array[i]`, for the `length` entries from `offset` on.
    ///
    /// The pattern table offset register must be set first.
    pub fn fill_pattern_table(&mut self, array: &[u8], offset: usize, length: usize)
        requires
            old(self).wf(),
            offset + length <= array@.len(),
        ensures
            final(self).wf(),
            final(self)@ == old(self)@.ram_filled(
                old(self)@.pattern_table_offset(),
                array@,
                offset as int,
                offset + length,
            ),
    {
        let ghost base = self@.pattern_table_offset();
        assert(array@.len() == array.len());
        let end: usize = offset + length;
        let mut i: usize = offset;
        while i < end
            invariant
                offset <= i <= end <= array@.len(),
                self.wf(),
                self@.pattern_table_offset() == base,
                self@ == old(self)@.ram_filled(base, array@, offset as int, i as int),
            decreases end - i,
        {
            self.write_pattern_table(i, array[i]);
            i += 1;
        }
    }
}

} // verus!
