//! The NOR flash save device: a bank-switchable byte buffer driven by a
//! JEDEC-style unlock-sequence command protocol (SST-compatible for the
//! 64K chip, Sanyo-compatible for the 128K chip).
//!
//! Every write first passes through the two-byte unlock prefix
//! (0xAA at 0x5555, then 0x55 at 0x2AAA); the third write selects a
//! command: chip-ID mode in or out, chip or sector erase, a single-byte
//! program, or a bank select. Reads never change the protocol state.

use vstd::prelude::*;

use crate::buffer::bytes_filled;
use crate::buffer::fill_range;
use crate::buffer::filled;
use crate::buffer::seed_or_fill;
use crate::device::SaveType;

verus! {

/// The length of one addressable bank window, in bytes.
pub const BANK_SIZE: usize = 0x10000;

/// The buffer length of the smaller flash chip.
pub const FLASH_64K_SIZE: usize = 0x10000;

/// The buffer length of the larger, two-bank flash chip.
pub const FLASH_128K_SIZE: usize = 0x20000;

/// Distinguishes a pending erase sub-command from an ordinary command
/// while the unlock prefix is in progress.
#[derive(Clone, Copy, Debug, PartialEq, Eq, Structural)]
pub enum CommandContext {
    Plain,
    Erase,
}

/// What a read returns: stored data, or the chip's identification bytes.
#[derive(Clone, Copy, Debug, PartialEq, Eq, Structural)]
pub enum ReadMode {
    Data,
    ChipId,
}

/// The protocol state: progress through the unlock prefix (step 0, 1 or
/// 2, with the pending sub-command context), an armed one-byte program,
/// or an armed bank-select write.
#[derive(Clone, Copy, Debug, PartialEq, Eq, Structural)]
pub enum FlashState {
    WaitForCommand(usize, CommandContext),
    WriteSingleByte,
    BankChange,
}

/// The mathematical model of a flash device: the same fields, with the
/// buffer as a sequence of bytes.
#[verifier::ext_equal]
pub ghost struct FlashModel {
    pub state: FlashState,
    pub read_mode: ReadMode,
    pub bank: u32,
    pub data: Seq<u8>,
}

impl FlashModel {
    /// Well-formed: the buffer has one of the two chip lengths, the bank
    /// window lies inside it, and the unlock step never exceeds 2.
    pub open spec fn wf(self) -> bool {
        &&& self.data.len() == FLASH_64K_SIZE || self.data.len() == FLASH_128K_SIZE
        &&& (self.bank as int + 1) * (BANK_SIZE as int) <= self.data.len()
        &&& (self.state matches FlashState::WaitForCommand(step, _) ==> step <= 2)
    }

    /// The state every completed or rejected-at-step-2 command returns to.
    pub open spec fn ready() -> FlashState {
        FlashState::WaitForCommand(0, CommandContext::Plain)
    }

    /// What a read at `addr` returns: in chip-ID mode the identification
    /// pair at offsets 0 and 1 (and 0 elsewhere), in data mode the byte at
    /// bank * 65536 + (addr & 0xFFFF), with the sentinel 0xFF for an index
    /// outside the buffer (reachable only from a corrupted bank value).
    pub open spec fn spec_read(self, addr: u32) -> u8 {
        let a = (addr & 0xFFFF) as int;
        let idx = self.bank as int * (BANK_SIZE as int) + a;
        match self.read_mode {
            ReadMode::ChipId => if self.data.len() == FLASH_64K_SIZE {
                if a == 0 {
                    0xBFu8
                } else if a == 1 {
                    0xD4u8
                } else {
                    0u8
                }
            } else {
                if a == 0 {
                    0x62u8
                } else if a == 1 {
                    0x13u8
                } else {
                    0u8
                }
            },
            ReadMode::Data => if idx < self.data.len() {
                self.data[idx]
            } else {
                0xFFu8
            },
        }
    }

    /// The buffer after erasing the whole chip.
    pub open spec fn erased_chip(self) -> Seq<u8> {
        bytes_filled(self.data.len(), 0xFF)
    }

    /// The buffer after erasing the 4096-byte sector that starts at
    /// absolute index `start`.
    pub open spec fn erased_sector(self, start: int) -> Seq<u8> {
        Seq::new(
            self.data.len(),
            |i: int|
                if start <= i < start + 0x1000 {
                    0xFFu8
                } else {
                    self.data[i]
                },
        )
    }

    /// The device after a write of `value` at `addr`: one transition of
    /// the protocol state machine. A combination that matches no command
    /// leaves the device exactly as it was.
    pub open spec fn after_write(self, addr: u32, value: u8) -> FlashModel {
        let a = addr & 0xFFFF;
        let idx = self.bank as int * (BANK_SIZE as int) + a as int;
        match self.state {
            FlashState::WaitForCommand(step, ctx) => {
                if step == 0 && a == 0x5555 && value == 0xAA {
                    FlashModel { state: FlashState::WaitForCommand(1, ctx), ..self }
                } else if step == 1 && a == 0x2AAA && value == 0x55 {
                    FlashModel { state: FlashState::WaitForCommand(2, ctx), ..self }
                } else if step == 2 && a == 0x5555 && value == 0x90 && ctx == CommandContext::Plain {
                    FlashModel { read_mode: ReadMode::ChipId, state: Self::ready(), ..self }
                } else if step == 2 && a == 0x5555 && value == 0xF0 && ctx == CommandContext::Plain {
                    FlashModel { read_mode: ReadMode::Data, state: Self::ready(), ..self }
                } else if step == 2 && a == 0x5555 && value == 0x80 {
                    FlashModel { state: FlashState::WaitForCommand(0, CommandContext::Erase), ..self }
                } else if step == 2 && a == 0x5555 && value == 0x10 && ctx == CommandContext::Erase {
                    FlashModel { data: self.erased_chip(), state: Self::ready(), ..self }
                } else if step == 2 && value == 0x30 && ctx == CommandContext::Erase {
                    let start = self.bank as int * (BANK_SIZE as int) + (a >> 12) as int * 0x1000;
                    FlashModel { data: self.erased_sector(start), state: Self::ready(), ..self }
                } else if step == 2 && a == 0x5555 && value == 0xA0 {
                    FlashModel { state: FlashState::WriteSingleByte, ..self }
                } else if step == 2 && a == 0x5555 && value == 0xB0 {
                    FlashModel { state: FlashState::BankChange, ..self }
                } else {
                    self
                }
            },
            FlashState::WriteSingleByte => {
                if idx >= self.data.len() {
                    self
                } else {
                    FlashModel {
                        data: self.data.update(idx, self.data[idx] & value),
                        state: Self::ready(),
                        ..self
                    }
                }
            },
            FlashState::BankChange => {
                if value as int >= self.data.len() as int / (BANK_SIZE as int) {
                    FlashModel { state: Self::ready(), ..self }
                } else {
                    FlashModel { bank: value as u32, state: Self::ready(), ..self }
                }
            },
        }
    }

    /// A write is free of the fatal bank-select precondition violation:
    /// an armed bank select only ever sees address 0.
    pub open spec fn write_ok(self, addr: u32) -> bool {
        self.state is BankChange ==> addr & 0xFFFF == 0
    }
}

/// A command-protocol NOR flash save device over a bank-switchable
/// byte buffer.
pub struct Flash {
    pub state: FlashState,
    pub read_mode: ReadMode,
    pub bank: u32,
    pub data: Vec<u8>,
}

impl View for Flash {
    type V = FlashModel;

    open spec fn view(&self) -> FlashModel {
        FlashModel {
            state: self.state,
            read_mode: self.read_mode,
            bank: self.bank,
            data: self.data@,
        }
    }
}

impl Flash {
    /// Well-formed: the model invariant holds.
    pub open spec fn wf(self) -> bool {
        self@.wf()
    }

    /// Builds a flash device of the given chip size from optional seed
    /// bytes; seeds of the wrong length are replaced by an erased
    /// (all-0xFF) buffer. The device starts in data mode, bank 0, with no
    /// command in progress.
    pub fn new(size: usize, storage: Option<Vec<u8>>) -> (r: Flash)
        requires
            size == FLASH_64K_SIZE || size == FLASH_128K_SIZE,
        ensures
            r@.data == seed_or_fill(storage, size as nat, 0xFF),
            r@.state == FlashModel::ready(),
            r@.read_mode == ReadMode::Data,
            r@.bank == 0,
            r.wf(),
    {
        let data = match storage {
            Some(storage) => {
                if storage.len() != size {
                    filled(size, 0xFF)
                } else {
                    storage
                }
            },
            None => filled(size, 0xFF),
        };
        Flash {
            state: FlashState::WaitForCommand(0, CommandContext::Plain),
            read_mode: ReadMode::Data,
            bank: 0,
            data,
        }
    }

    /// The byte the chip answers at `addr`; never changes the device.
    pub fn read(&self, addr: u32) -> (r: u8)
        requires
            self.wf(),
        ensures
            r == self@.spec_read(addr),
    {
        let a = addr & 0xFFFF;
        proof {
            assert(addr & 0xFFFF <= 0xFFFF) by (bit_vector);
        }
        let idx = self.bank as usize * BANK_SIZE + a as usize;

        match self.read_mode {
            ReadMode::ChipId => {
                if self.data.len() == FLASH_64K_SIZE {
                    // SST identification pair for the 64K chip
                    if a == 0 {
                        0xBF
                    } else if a == 1 {
                        0xD4
                    } else {
                        0
                    }
                } else {
                    // Sanyo identification pair for the 128K chip
                    if a == 0 {
                        0x62
                    } else if a == 1 {
                        0x13
                    } else {
                        0
                    }
                }
            },
            ReadMode::Data => {
                if idx >= self.data.len() {
                    0xFF
                } else {
                    self.data[idx]
                }
            },
        }
    }

    /// Drives one transition of the protocol state machine: unlock
    /// progress, a command byte, a one-byte program, or a bank select.
    pub fn write(&mut self, addr: u32, value: u8)
        requires
            old(self).wf(),
            old(self)@.write_ok(addr),
        ensures
            final(self)@ == old(self)@.after_write(addr, value),
            final(self).wf(),
    {
        let a = addr & 0xFFFF;
        proof {
            assert(addr & 0xFFFF <= 0xFFFF) by (bit_vector);
        }

        match self.state {
            FlashState::WaitForCommand(step, ctx) => {
                if step == 0 && a == 0x5555 && value == 0xAA {
                    self.state = FlashState::WaitForCommand(1, ctx);
                } else if step == 1 && a == 0x2AAA && value == 0x55 {
                    self.state = FlashState::WaitForCommand(2, ctx);
                } else if step == 2 && a == 0x5555 && value == 0x90 && ctx == CommandContext::Plain {
                    // Enter chip-ID read mode
                    self.read_mode = ReadMode::ChipId;
                    self.state = FlashState::WaitForCommand(0, CommandContext::Plain);
                } else if step == 2 && a == 0x5555 && value == 0xF0 && ctx == CommandContext::Plain {
                    // Leave chip-ID read mode (also accepted when not in it)
                    self.read_mode = ReadMode::Data;
                    self.state = FlashState::WaitForCommand(0, CommandContext::Plain);
                } else if step == 2 && a == 0x5555 && value == 0x80 {
                    // Arm an erase sub-command
                    self.state = FlashState::WaitForCommand(0, CommandContext::Erase);
                } else if step == 2 && a == 0x5555 && value == 0x10 && ctx == CommandContext::Erase {
                    // Erase the entire chip
                    let len = self.data.len();
                    fill_range(&mut self.data, 0, len, 0xFF);
                    self.state = FlashState::WaitForCommand(0, CommandContext::Plain);
                    proof {
                        assert(self.data@ =~= old(self)@.erased_chip());
                    }
                } else if step == 2 && value == 0x30 && ctx == CommandContext::Erase {
                    // Erase the 4096-byte sector the address falls in
                    let sector = (a >> 12) as usize;
                    proof {
                        assert((a >> 12) <= 0xF) by (bit_vector)
                            requires
                                a <= 0xFFFF,
                        ;
                    }
                    let start = self.bank as usize * BANK_SIZE + sector * 0x1000;
                    fill_range(&mut self.data, start, start + 0x1000, 0xFF);
                    self.state = FlashState::WaitForCommand(0, CommandContext::Plain);
                    proof {
                        assert(self.data@ =~= old(self)@.erased_sector(start as int));
                    }
                } else if step == 2 && a == 0x5555 && value == 0xA0 {
                    // Arm a one-byte program
                    self.state = FlashState::WriteSingleByte;
                } else if step == 2 && a == 0x5555 && value == 0xB0 {
                    // Arm a bank-select write
                    self.state = FlashState::BankChange;
                }
                // Any other combination is an invalid command: the pending
                // step and context stay exactly as they were.
            },
            FlashState::WriteSingleByte => {
                let idx = self.bank as usize * BANK_SIZE + a as usize;
                if idx < self.data.len() {
                    // A single program can only clear bits, never set them
                    let programmed = self.data[idx] & value;
                    self.data[idx] = programmed;
                    self.state = FlashState::WaitForCommand(0, CommandContext::Plain);
                }
                // An out-of-bounds target leaves the device armed.
            },
            FlashState::BankChange => {
                assert(a == 0);
                let max_banks = (self.data.len() / BANK_SIZE) as u8;
                if value >= max_banks {
                    // Bank out of range: keep the old bank
                    self.state = FlashState::WaitForCommand(0, CommandContext::Plain);
                } else {
                    self.bank = value as u32;
                    self.state = FlashState::WaitForCommand(0, CommandContext::Plain);
                }
            },
        }
        proof {
            assert(self@ =~= old(self)@.after_write(addr, value));
        }
    }

    /// The raw buffer, for an external persistence collaborator.
    pub fn get_data(&self) -> (r: &[u8])
        ensures
            r@ == self.data@,
    {
        self.data.as_slice()
    }

    /// Static identification of the device kind, derived from the buffer
    /// length alone.
    pub fn get_type(&self) -> (r: SaveType)
        requires
            self.wf(),
        ensures
            r == (if self.data@.len() == FLASH_64K_SIZE {
                SaveType::Flash64K
            } else {
                SaveType::Flash128K
            }),
    {
        if self.data.len() == FLASH_64K_SIZE {
            SaveType::Flash64K
        } else {
            SaveType::Flash128K
        }
    }

    /// Human-readable label of the device kind, derived from the buffer
    /// length alone.
    pub fn storage_type(&self) -> (r: &'static str)
        requires
            self.wf(),
        ensures
            self.data@.len() == FLASH_64K_SIZE ==> r@ == "FLASH (512K)"@,
            self.data@.len() == FLASH_128K_SIZE ==> r@ == "FLASH (1M)"@,
    {
        if self.data.len() == FLASH_64K_SIZE {
            "FLASH (512K)"
        } else {
            "FLASH (1M)"
        }
    }
}

} // verus!
