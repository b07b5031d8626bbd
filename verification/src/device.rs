//! The save-device capability: the closed set of storage variants a
//! cartridge can carry, and the uniform byte-addressable interface over
//! them.

use vstd::prelude::*;

use crate::flash::Flash;
use crate::flash::FlashModel;
use crate::sram::SRAM_SIZE;
use crate::sram::Sram;

verus! {

/// The kind of persistent storage a cartridge reports. Only `NoSave`/`SRAM`
/// and the two flash variants have working implementations; the EEPROM
/// variants degrade to SRAM.
#[derive(Clone, Copy, Debug, PartialEq, Eq, Structural)]
pub enum SaveType {
    NoSave,
    SRAM,
    Flash64K,
    Flash128K,
    EEPROM4K,
    EEPROM64K,
}

/// The mathematical model of a save device: an SRAM buffer, or a flash
/// device with its protocol state.
#[verifier::ext_equal]
pub ghost enum SaveDeviceModel {
    Sram(Seq<u8>),
    Flash(FlashModel),
}

impl SaveDeviceModel {
    /// Well-formed: the variant's own invariant holds.
    pub open spec fn wf(self) -> bool {
        match self {
            SaveDeviceModel::Sram(data) => data.len() == SRAM_SIZE,
            SaveDeviceModel::Flash(m) => m.wf(),
        }
    }

    /// The raw buffer the device holds.
    pub open spec fn data(self) -> Seq<u8> {
        match self {
            SaveDeviceModel::Sram(data) => data,
            SaveDeviceModel::Flash(m) => m.data,
        }
    }

    /// What a read at `addr` returns.
    pub open spec fn spec_read(self, addr: u32) -> u8 {
        match self {
            SaveDeviceModel::Sram(data) => if addr < SRAM_SIZE {
                data[addr as int]
            } else {
                0xFFu8
            },
            SaveDeviceModel::Flash(m) => m.spec_read(addr),
        }
    }

    /// The device after a write of `value` at `addr`.
    pub open spec fn after_write(self, addr: u32, value: u8) -> SaveDeviceModel {
        match self {
            SaveDeviceModel::Sram(data) => SaveDeviceModel::Sram(
                if addr < SRAM_SIZE {
                    data.update(addr as int, value)
                } else {
                    data
                },
            ),
            SaveDeviceModel::Flash(m) => SaveDeviceModel::Flash(m.after_write(addr, value)),
        }
    }

    /// A write is free of the flash bank-select precondition violation.
    pub open spec fn write_ok(self, addr: u32) -> bool {
        match self {
            SaveDeviceModel::Sram(_) => true,
            SaveDeviceModel::Flash(m) => m.write_ok(addr),
        }
    }

    /// The save type the device reports.
    pub open spec fn save_type(self) -> SaveType {
        match self {
            SaveDeviceModel::Sram(_) => SaveType::SRAM,
            SaveDeviceModel::Flash(m) => if m.data.len() == crate::flash::FLASH_64K_SIZE {
                SaveType::Flash64K
            } else {
                SaveType::Flash128K
            },
        }
    }
}

/// A save device: exactly one of the storage variants, behind the uniform
/// read/write/inspect interface.
pub enum SaveDevice {
    Sram(Sram),
    Flash(Flash),
}

impl View for SaveDevice {
    type V = SaveDeviceModel;

    open spec fn view(&self) -> SaveDeviceModel {
        match self {
            SaveDevice::Sram(s) => SaveDeviceModel::Sram(s.data@),
            SaveDevice::Flash(f) => SaveDeviceModel::Flash(f@),
        }
    }
}

impl SaveDevice {
    /// Well-formed: the active variant's invariant holds.
    pub open spec fn wf(self) -> bool {
        self@.wf()
    }

    /// The byte the device answers at `addr`; out-of-range offsets read
    /// as the sentinel 0xFF. Never changes the device.
    pub fn read(&self, addr: u32) -> (r: u8)
        requires
            self.wf(),
        ensures
            r == self@.spec_read(addr),
    {
        match self {
            SaveDevice::Sram(s) => s.read(addr),
            SaveDevice::Flash(f) => f.read(addr),
        }
    }

    /// Stores `value` at `addr`: directly for SRAM, through one protocol
    /// transition for flash. Out-of-range offsets are a no-op.
    pub fn write(&mut self, addr: u32, value: u8)
        requires
            old(self).wf(),
            old(self)@.write_ok(addr),
        ensures
            final(self)@ == old(self)@.after_write(addr, value),
            final(self).wf(),
    {
        match self {
            SaveDevice::Sram(s) => s.write(addr, value),
            SaveDevice::Flash(f) => f.write(addr, value),
        }
    }

    /// The raw buffer, for an external persistence collaborator.
    pub fn get_data(&self) -> (r: &[u8])
        ensures
            r@ == self@.data(),
    {
        match self {
            SaveDevice::Sram(s) => s.get_data(),
            SaveDevice::Flash(f) => f.get_data(),
        }
    }

    /// Static identification of the device kind.
    pub fn get_type(&self) -> (r: SaveType)
        requires
            self.wf(),
        ensures
            r == self@.save_type(),
    {
        match self {
            SaveDevice::Sram(s) => s.get_type(),
            SaveDevice::Flash(f) => f.get_type(),
        }
    }

    /// Human-readable label of the device kind.
    pub fn storage_type(&self) -> (r: &'static str)
        requires
            self.wf(),
        ensures
            self@ is Sram ==> r@ == "SRAM (64K)"@,
            self@ matches SaveDeviceModel::Flash(m) && m.data.len() == crate::flash::FLASH_64K_SIZE
                ==> r@ == "FLASH (512K)"@,
            self@ matches SaveDeviceModel::Flash(m) && m.data.len() == crate::flash::FLASH_128K_SIZE
                ==> r@ == "FLASH (1M)"@,
    {
        match self {
            SaveDevice::Sram(s) => s.storage_type(),
            SaveDevice::Flash(f) => f.storage_type(),
        }
    }
}

} // verus!
