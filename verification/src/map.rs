//! The memory-mapped address decoder: owns the other memory regions and
//! exactly one save device, and routes accesses whose top address byte
//! carries the save-region tag to that device.

use vstd::prelude::*;

use crate::buffer::bytes_filled;
use crate::buffer::filled;
use crate::buffer::seed_or_fill;
use crate::device::SaveDevice;
use crate::device::SaveDeviceModel;
use crate::device::SaveType;
use crate::flash::FLASH_128K_SIZE;
use crate::flash::FLASH_64K_SIZE;
use crate::flash::Flash;
use crate::flash::FlashModel;
use crate::flash::ReadMode;
use crate::sram::SRAM_SIZE;
use crate::sram::Sram;

verus! {

/// The save-region tag: the top byte of an address that lands in the
/// save-device window.
pub const SAVE_REGION_TAG: u32 = 0x0E000000;

/// The model of the device `set_save_device` installs for a given save
/// type and optional seed bytes: an SRAM buffer taking a seed of exactly
/// the right length (zero-filled fallback) for `NoSave`, `SRAM` and
/// every unimplemented type, a freshly reset flash device (0xFF-filled
/// fallback) for the two flash types.
pub open spec fn device_model_for(save_type: SaveType, data: Option<Vec<u8>>) -> SaveDeviceModel {
    match save_type {
        SaveType::NoSave => SaveDeviceModel::Sram(seed_or_fill(data, SRAM_SIZE as nat, 0x00)),
        SaveType::SRAM => SaveDeviceModel::Sram(seed_or_fill(data, SRAM_SIZE as nat, 0x00)),
        SaveType::Flash64K => SaveDeviceModel::Flash(
            FlashModel {
                state: FlashModel::ready(),
                read_mode: ReadMode::Data,
                bank: 0,
                data: seed_or_fill(data, FLASH_64K_SIZE as nat, 0xFF),
            },
        ),
        SaveType::Flash128K => SaveDeviceModel::Flash(
            FlashModel {
                state: FlashModel::ready(),
                read_mode: ReadMode::Data,
                bank: 0,
                data: seed_or_fill(data, FLASH_128K_SIZE as nat, 0xFF),
            },
        ),
        _ => SaveDeviceModel::Sram(seed_or_fill(data, SRAM_SIZE as nat, 0x00)),
    }
}

/// The full address decoder: the (out-of-scope) memory regions, and the
/// one active save device.
pub struct MemoryMap {
    pub bios: Vec<u8>,
    pub wram: Vec<u8>,
    pub iwram: Vec<u8>,
    pub save_device: SaveDevice,
}

impl MemoryMap {
    /// Well-formed: the active save device's invariant holds.
    pub open spec fn wf(self) -> bool {
        self.save_device.wf()
    }

    /// Whether `addr` lands in the save-device window.
    pub open spec fn in_save_region(addr: u32) -> bool {
        addr & 0xFF000000 == SAVE_REGION_TAG
    }

    /// The relative offset handed to the save device: the address with
    /// the region tag stripped.
    pub open spec fn save_offset(addr: u32) -> u32 {
        addr & 0x00FFFFFF
    }

    /// What a read at `addr` returns: the save device's answer inside the
    /// save window, the sentinel 0xFF anywhere else.
    pub open spec fn spec_read_byte(self, addr: u32) -> u8 {
        if Self::in_save_region(addr) {
            self.save_device@.spec_read(Self::save_offset(addr))
        } else {
            0xFFu8
        }
    }

    /// A write at `addr` is free of the flash bank-select precondition
    /// violation (trivially so outside the save window).
    pub open spec fn write_ok(self, addr: u32) -> bool {
        Self::in_save_region(addr) ==> self.save_device@.write_ok(Self::save_offset(addr))
    }

    /// A power-on memory map: zero-filled regions and a zero-filled SRAM
    /// save device.
    pub fn new() -> (r: MemoryMap)
        ensures
            r.wf(),
            r.save_device@ == SaveDeviceModel::Sram(bytes_filled(SRAM_SIZE as nat, 0x00)),
            r.bios@ == bytes_filled(0x4000, 0x00),
            r.wram@ == bytes_filled(0x40000, 0x00),
            r.iwram@ == bytes_filled(0x8000, 0x00),
    {
        MemoryMap {
            bios: filled(0x4000, 0x00),
            wram: filled(0x40000, 0x00),
            iwram: filled(0x8000, 0x00),
            save_device: SaveDevice::Sram(Sram::default()),
        }
    }

    /// Installs a brand-new save device of the requested type, discarding
    /// the previous one: SRAM for `NoSave`/`SRAM`, flash for the two
    /// flash types, and an SRAM fallback for every unimplemented type.
    pub fn set_save_device(&mut self, save_type: SaveType, data: Option<Vec<u8>>)
        ensures
            final(self).wf(),
            final(self).save_device@ == device_model_for(save_type, data),
            final(self).bios == old(self).bios,
            final(self).wram == old(self).wram,
            final(self).iwram == old(self).iwram,
    {
        self.save_device = match save_type {
            SaveType::NoSave => SaveDevice::Sram(Sram::new(data)),
            SaveType::SRAM => SaveDevice::Sram(Sram::new(data)),
            SaveType::Flash64K => SaveDevice::Flash(Flash::new(FLASH_64K_SIZE, data)),
            SaveType::Flash128K => SaveDevice::Flash(Flash::new(FLASH_128K_SIZE, data)),
            // The EEPROM types are not implemented: degrade to SRAM
            _ => SaveDevice::Sram(Sram::new(data)),
        };
    }

    /// Decodes the top byte of `addr`: a save-window access is forwarded
    /// to the active device, any other region is unhandled here and reads
    /// as the sentinel 0xFF.
    pub fn read_byte(&self, addr: u32) -> (r: u8)
        requires
            self.wf(),
        ensures
            r == self.spec_read_byte(addr),
    {
        match addr & 0xFF000000 {
            0x0E000000 => self.read_save(addr),
            // Every other region belongs to the excluded collaborators
            _ => 0xFF,
        }
    }

    /// Decodes the top byte of `addr`: a save-window access is forwarded
    /// to the active device, a write anywhere else is a no-op here.
    pub fn write_byte(&mut self, addr: u32, value: u8)
        requires
            old(self).wf(),
            old(self).write_ok(addr),
        ensures
            final(self).wf(),
            Self::in_save_region(addr) ==> final(self).save_device@ == old(self).save_device@
                .after_write(Self::save_offset(addr), value),
            !Self::in_save_region(addr) ==> *final(self) == *old(self),
            final(self).bios == old(self).bios,
            final(self).wram == old(self).wram,
            final(self).iwram == old(self).iwram,
    {
        match addr & 0xFF000000 {
            0x0E000000 => self.write_save(addr, value),
            // Every other region belongs to the excluded collaborators
            _ => {},
        }
    }

    /// Strips the region tag and reads from the active save device.
    fn read_save(&self, addr: u32) -> (r: u8)
        requires
            self.wf(),
        ensures
            r == self.save_device@.spec_read(Self::save_offset(addr)),
    {
        let relative_addr = addr & 0x00FFFFFF;
        self.save_device.read(relative_addr)
    }

    /// Strips the region tag and writes to the active save device.
    fn write_save(&mut self, addr: u32, value: u8)
        requires
            old(self).wf(),
            old(self).save_device@.write_ok(addr & 0x00FFFFFF),
        ensures
            final(self).wf(),
            final(self).save_device@ == old(self).save_device@.after_write(
                Self::save_offset(addr),
                value,
            ),
            final(self).bios == old(self).bios,
            final(self).wram == old(self).wram,
            final(self).iwram == old(self).iwram,
    {
        let relative_addr = addr & 0x00FFFFFF;
        self.save_device.write(relative_addr, value);
    }
}

} // verus!
