//! Static RAM: a fixed 65536-byte buffer behind the save-device
//! interface, with out-of-range accesses degrading to a sentinel read or
//! a no-op write.

use vstd::prelude::*;

use crate::buffer::bytes_filled;
use crate::buffer::filled;
use crate::buffer::seed_or_fill;
use crate::device::SaveType;

verus! {

/// The SRAM buffer length in bytes.
pub const SRAM_SIZE: usize = 0x10000;

/// A battery-backed static RAM save device: one fixed 65536-byte buffer
/// and no further state.
pub struct Sram {
    pub data: Vec<u8>,
}

impl Sram {
    /// Well-formed: the buffer has exactly the SRAM length.
    pub open spec fn wf(self) -> bool {
        self.data@.len() == SRAM_SIZE
    }

    /// Builds an SRAM device from optional seed bytes; seeds of the wrong
    /// length are replaced by an all-zero buffer.
    pub fn new(storage: Option<Vec<u8>>) -> (r: Sram)
        ensures
            r.data@ == seed_or_fill(storage, SRAM_SIZE as nat, 0x00),
            r.wf(),
    {
        match storage {
            Some(data) => {
                if data.len() != SRAM_SIZE {
                    Sram { data: filled(SRAM_SIZE, 0x00) }
                } else {
                    Sram { data }
                }
            },
            None => Sram { data: filled(SRAM_SIZE, 0x00) },
        }
    }

    /// The byte at `addr`, or the sentinel 0xFF when `addr` lies outside
    /// the buffer.
    pub fn read(&self, addr: u32) -> (r: u8)
        requires
            self.wf(),
        ensures
            r == (if addr < SRAM_SIZE {
                self.data@[addr as int]
            } else {
                0xFFu8
            }),
    {
        if addr < 0x10000 {
            self.data[addr as usize]
        } else {
            0xFF
        }
    }

    /// Stores `value` at `addr`; a write outside the buffer is a no-op.
    pub fn write(&mut self, addr: u32, value: u8)
        requires
            old(self).wf(),
        ensures
            final(self).wf(),
            final(self).data@ == (if addr < SRAM_SIZE {
                old(self).data@.update(addr as int, value)
            } else {
                old(self).data@
            }),
    {
        if addr < 0x10000 {
            self.data[addr as usize] = value;
        }
    }

    /// The raw buffer, for an external persistence collaborator.
    pub fn get_data(&self) -> (r: &[u8])
        ensures
            r@ == self.data@,
    {
        self.data.as_slice()
    }

    /// Static identification of the device kind.
    pub fn get_type(&self) -> (r: SaveType)
        ensures
            r == SaveType::SRAM,
    {
        SaveType::SRAM
    }

    /// Human-readable label of the device kind.
    pub fn storage_type(&self) -> (r: &'static str)
        ensures
            r@ == "SRAM (64K)"@,
    {
        "SRAM (64K)"
    }
}

impl Default for Sram {
    /// A zero-filled SRAM device, the power-on default.
    fn default() -> (r: Sram)
        ensures
            r.data@ == bytes_filled(SRAM_SIZE as nat, 0x00),
            r.wf(),
    {
        Sram { data: filled(SRAM_SIZE, 0x00) }
    }
}

} // verus!
