//! General laws of the flash command protocol, stated over the device
//! model and proved once for every well-formed device: programming,
//! chip and sector erase, bank selection, and chip-ID reads.

use vstd::prelude::*;

use crate::buffer::bytes_filled;
use crate::flash::BANK_SIZE;
use crate::flash::CommandContext;
use crate::flash::FLASH_128K_SIZE;
use crate::flash::FLASH_64K_SIZE;
use crate::flash::FlashModel;
use crate::flash::FlashState;
use crate::flash::ReadMode;

verus! {

/// The masked low 16 bits of the two unlock addresses and of address 0,
/// and the range of a masked address and of its sector index.
proof fn lemma_mask_facts(addr: u32)
    ensures
        0x5555u32 & 0xFFFF == 0x5555,
        0x2AAAu32 & 0xFFFF == 0x2AAA,
        0u32 & 0xFFFF == 0,
        addr & 0xFFFF <= 0xFFFF,
        (addr & 0xFFFF) >> 12 <= 0xF,
{
    assert(0x5555u32 & 0xFFFF == 0x5555) by (bit_vector);
    assert(0x2AAAu32 & 0xFFFF == 0x2AAA) by (bit_vector);
    assert(0u32 & 0xFFFF == 0) by (bit_vector);
    assert(addr & 0xFFFF <= 0xFFFF) by (bit_vector);
    assert((addr & 0xFFFF) >> 12 <= 0xF) by (bit_vector);
}

/// For every byte address `b` and value `v`: after the full unlock
/// sequence followed by the program command 0xA0 and then a write of `v`
/// at `b`, the device is back at rest and reading `b` returns the old
/// byte bitwise-ANDed with `v` (a program can only clear bits).
pub proof fn lemma_program_byte(f: FlashModel, b: u32, v: u8)
    requires
        f.wf(),
        f.state == FlashModel::ready(),
        f.read_mode == ReadMode::Data,
    ensures
        ({
            let done = f.after_write(0x5555, 0xAA).after_write(0x2AAA, 0x55).after_write(
                0x5555,
                0xA0,
            ).after_write(b, v);
            &&& done.spec_read(b) == (f.spec_read(b) & v)
            &&& done.data == f.data.update(
                f.bank as int * (BANK_SIZE as int) + (b & 0xFFFF) as int,
                (f.data[f.bank as int * (BANK_SIZE as int) + (b & 0xFFFF) as int] & v),
            )
            &&& done.state == FlashModel::ready()
            &&& done.read_mode == ReadMode::Data
            &&& done.bank == f.bank
            &&& done.wf()
        }),
{
    lemma_mask_facts(b);
}

/// From an armed one-byte program, whatever the read mode, a write of
/// `v` at `b` bitwise-ANDs `v` into exactly the byte at offset
/// bank * 65536 + (b & 0xFFFF), leaves every other byte unchanged, and
/// returns the device to rest with its bank and read mode kept; a
/// data-mode read at `b` then returns the programmed byte.
pub proof fn lemma_armed_program(f: FlashModel, b: u32, v: u8)
    requires
        f.wf(),
        f.state == FlashState::WriteSingleByte,
    ensures
        ({
            let idx = f.bank as int * (BANK_SIZE as int) + (b & 0xFFFF) as int;
            let done = f.after_write(b, v);
            &&& done.data == f.data.update(idx, (f.data[idx] & v))
            &&& done.data.len() == f.data.len()
            &&& done.data[idx] == (f.data[idx] & v)
            &&& (forall|j: int| 0 <= j < f.data.len() && j != idx ==> done.data[j] == f.data[j])
            &&& done.state == FlashModel::ready()
            &&& done.bank == f.bank
            &&& done.read_mode == f.read_mode
            &&& done.wf()
            &&& (done.read_mode == ReadMode::Data ==> done.spec_read(b) == (f.data[idx] & v))
        }),
{
    lemma_mask_facts(b);
}

/// The full unlock sequence, the erase command 0x80, a second unlock
/// sequence and the chip-erase command 0x10 set every byte in the buffer
/// to 0xFF and leave the rest of the device as it was.
pub proof fn lemma_chip_erase(f: FlashModel)
    requires
        f.wf(),
        f.state == FlashModel::ready(),
    ensures
        ({
            let done = f.after_write(0x5555, 0xAA).after_write(0x2AAA, 0x55).after_write(
                0x5555,
                0x80,
            ).after_write(0x5555, 0xAA).after_write(0x2AAA, 0x55).after_write(0x5555, 0x10);
            &&& done.data == bytes_filled(f.data.len(), 0xFF)
            &&& done.state == FlashModel::ready()
            &&& done.read_mode == f.read_mode
            &&& done.bank == f.bank
            &&& done.wf()
        }),
{
    lemma_mask_facts(0);
}

/// The full unlock sequence, the erase command 0x80, a second unlock
/// sequence and the sector-erase command 0x30 at `addr` set the 4096
/// bytes of sector `(addr & 0xFFFF) >> 12` within the current bank to
/// 0xFF and leave every other byte unchanged.
pub proof fn lemma_sector_erase(f: FlashModel, addr: u32)
    requires
        f.wf(),
        f.state == FlashModel::ready(),
    ensures
        ({
            let done = f.after_write(0x5555, 0xAA).after_write(0x2AAA, 0x55).after_write(
                0x5555,
                0x80,
            ).after_write(0x5555, 0xAA).after_write(0x2AAA, 0x55).after_write(addr, 0x30);
            let start = f.bank as int * (BANK_SIZE as int) + ((addr & 0xFFFF) >> 12) as int
                * 0x1000;
            &&& done.data.len() == f.data.len()
            &&& (forall|i: int| start <= i < start + 0x1000 ==> done.data[i] == 0xFF)
            &&& (forall|i: int|
                0 <= i < f.data.len() && !(start <= i < start + 0x1000) ==> done.data[i]
                    == f.data[i])
            &&& done.state == FlashModel::ready()
            &&& done.read_mode == f.read_mode
            &&& done.bank == f.bank
            &&& done.wf()
        }),
{
    lemma_mask_facts(addr);
}

/// The full unlock sequence, the bank-select command 0xB0 and a write of
/// `b` at address 0, for `b` below the number of banks, set the active
/// bank to `b` and change nothing else; a subsequent data-mode read at
/// any address `a`, and a subsequent programmed byte at `a`, both target
/// offset b * 65536 + (a & 0xFFFF).
pub proof fn lemma_bank_change(f: FlashModel, b: u8, a: u32, v: u8)
    requires
        f.wf(),
        f.state == FlashModel::ready(),
        (b as int) < f.data.len() as int / (BANK_SIZE as int),
    ensures
        ({
            let done = f.after_write(0x5555, 0xAA).after_write(0x2AAA, 0x55).after_write(
                0x5555,
                0xB0,
            ).after_write(0, b);
            let target = b as int * (BANK_SIZE as int) + (a & 0xFFFF) as int;
            &&& done.bank == b
            &&& done.state == FlashModel::ready()
            &&& done.read_mode == f.read_mode
            &&& done.data == f.data
            &&& done.wf()
            &&& (done.read_mode == ReadMode::Data ==> done.spec_read(a) == f.data[target])
            &&& done.after_write(0x5555, 0xAA).after_write(0x2AAA, 0x55).after_write(
                0x5555,
                0xA0,
            ).after_write(a, v).data == f.data.update(target, (f.data[target] & v))
        }),
{
    lemma_mask_facts(a);
}

/// The full unlock sequence and the command 0x90 put the device in
/// chip-ID mode, where offsets 0 and 1 read the identification pair of
/// the chip (0xBF/0xD4 for the 64K chip, 0x62/0x13 for the 128K chip);
/// a further unlock sequence and the command 0xF0 return it to data-mode
/// reads. Neither mode change touches the buffer.
pub proof fn lemma_chip_id(f: FlashModel)
    requires
        f.wf(),
        f.state == FlashModel::ready(),
    ensures
        ({
            let ident = f.after_write(0x5555, 0xAA).after_write(0x2AAA, 0x55).after_write(
                0x5555,
                0x90,
            );
            let back = ident.after_write(0x5555, 0xAA).after_write(0x2AAA, 0x55).after_write(
                0x5555,
                0xF0,
            );
            &&& ident.read_mode == ReadMode::ChipId
            &&& (f.data.len() == FLASH_64K_SIZE ==> ident.spec_read(0) == 0xBF && ident.spec_read(
                1,
            ) == 0xD4)
            &&& (f.data.len() == FLASH_128K_SIZE ==> ident.spec_read(0) == 0x62 && ident.spec_read(
                1,
            ) == 0x13)
            &&& ident.data == f.data
            &&& ident.bank == f.bank
            &&& ident.state == FlashModel::ready()
            &&& back.read_mode == ReadMode::Data
            &&& back.data == f.data
            &&& back.bank == f.bank
            &&& back.state == FlashModel::ready()
        }),
{
    lemma_mask_facts(0);
    assert(1u32 & 0xFFFF == 1) by (bit_vector);
}

/// An invalid command while the unlock prefix is pending is rejected
/// without resetting the sequence: the step and context stay exactly as
/// they were, and so does everything else.
pub proof fn lemma_invalid_command_keeps_state(f: FlashModel, addr: u32, value: u8)
    requires
        f.wf(),
        f.state is WaitForCommand,
        ({
            let a = addr & 0xFFFF;
            let step = f.state->WaitForCommand_0;
            let ctx = f.state->WaitForCommand_1;
            &&& !(step == 0 && a == 0x5555 && value == 0xAA)
            &&& !(step == 1 && a == 0x2AAA && value == 0x55)
            &&& !(step == 2 && a == 0x5555 && value == 0x90 && ctx == CommandContext::Plain)
            &&& !(step == 2 && a == 0x5555 && value == 0xF0 && ctx == CommandContext::Plain)
            &&& !(step == 2 && a == 0x5555 && value == 0x80)
            &&& !(step == 2 && a == 0x5555 && value == 0x10 && ctx == CommandContext::Erase)
            &&& !(step == 2 && value == 0x30 && ctx == CommandContext::Erase)
            &&& !(step == 2 && a == 0x5555 && value == 0xA0)
            &&& !(step == 2 && a == 0x5555 && value == 0xB0)
        }),
    ensures
        f.after_write(addr, value) == f,
{
}

} // verus!
