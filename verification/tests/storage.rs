use save_storage::device::{SaveDevice, SaveType};
use save_storage::flash::{CommandContext, Flash, FlashState, ReadMode};
use save_storage::map::MemoryMap;
use save_storage::sram::Sram;

fn unlock(f: &mut Flash) {
    f.write(0x5555, 0xAA);
    f.write(0x2AAA, 0x55);
}

#[test]
fn flash_program_clears_bits() {
    let mut seed = vec![0u8; 0x10000];
    seed[0x1234] = 0xAB;
    let mut f = Flash::new(0x10000, Some(seed));

    unlock(&mut f);
    f.write(0x5555, 0xA0);
    f.write(0x1234, 0x0F);
    assert_eq!(f.read(0x1234), 0xAB & 0x0F);

    // A second program can only clear further bits, never set them
    unlock(&mut f);
    f.write(0x5555, 0xA0);
    f.write(0x1234, 0xF0);
    assert_eq!(f.read(0x1234), 0x0B & 0xF0);
    assert_eq!(f.state, FlashState::WaitForCommand(0, CommandContext::Plain));
}

#[test]
fn flash_program_fresh_chip() {
    let mut f = Flash::new(0x10000, None);
    assert_eq!(f.read(0x0042), 0xFF);
    unlock(&mut f);
    f.write(0x5555, 0xA0);
    f.write(0x0042, 0x5A);
    assert_eq!(f.read(0x0042), 0x5A);
}

#[test]
fn flash_chip_erase() {
    let mut f = Flash::new(0x10000, Some(vec![0u8; 0x10000]));
    assert_eq!(f.read(0), 0x00);
    unlock(&mut f);
    f.write(0x5555, 0x80);
    unlock(&mut f);
    f.write(0x5555, 0x10);
    assert_eq!(f.get_data().len(), 0x10000);
    assert!(f.get_data().iter().all(|&b| b == 0xFF));
    assert_eq!(f.state, FlashState::WaitForCommand(0, CommandContext::Plain));
}

#[test]
fn flash_sector_erase() {
    let mut f = Flash::new(0x10000, Some(vec![0x11u8; 0x10000]));
    unlock(&mut f);
    f.write(0x5555, 0x80);
    unlock(&mut f);
    // Any address inside sector 2 names the sector
    f.write(0x2ABC, 0x30);
    assert_eq!(f.read(0x1FFF), 0x11);
    assert_eq!(f.read(0x2000), 0xFF);
    assert_eq!(f.read(0x2ABC), 0xFF);
    assert_eq!(f.read(0x2FFF), 0xFF);
    assert_eq!(f.read(0x3000), 0x11);
}

#[test]
fn flash_bank_change() {
    let mut seed = vec![0u8; 0x20000];
    seed[0x0007] = 0x21;
    seed[0x10007] = 0x42;
    let mut f = Flash::new(0x20000, Some(seed));
    assert_eq!(f.read(0x0007), 0x21);

    unlock(&mut f);
    f.write(0x5555, 0xB0);
    f.write(0, 1);
    assert_eq!(f.bank, 1);
    assert_eq!(f.read(0x0007), 0x42);

    // A programmed byte lands inside the selected bank
    unlock(&mut f);
    f.write(0x5555, 0xA0);
    f.write(0x0007, 0x40);
    assert_eq!(f.get_data()[0x10007], 0x42 & 0x40);
    assert_eq!(f.get_data()[0x0007], 0x21);
}

#[test]
fn flash_bank_change_rejects_out_of_range() {
    let mut f = Flash::new(0x20000, None);
    unlock(&mut f);
    f.write(0x5555, 0xB0);
    f.write(0, 1);
    assert_eq!(f.bank, 1);

    // Bank 2 does not exist on a 131072-byte chip: the bank is kept
    unlock(&mut f);
    f.write(0x5555, 0xB0);
    f.write(0, 2);
    assert_eq!(f.bank, 1);
    assert_eq!(f.state, FlashState::WaitForCommand(0, CommandContext::Plain));

    // A 65536-byte chip only has bank 0
    let mut g = Flash::new(0x10000, None);
    unlock(&mut g);
    g.write(0x5555, 0xB0);
    g.write(0, 1);
    assert_eq!(g.bank, 0);
}

#[test]
fn flash_chip_id_64k() {
    let mut f = Flash::new(0x10000, Some(vec![0x33u8; 0x10000]));
    unlock(&mut f);
    f.write(0x5555, 0x90);
    assert_eq!(f.read_mode, ReadMode::ChipId);
    assert_eq!(f.read(0), 0xBF);
    assert_eq!(f.read(1), 0xD4);
    assert_eq!(f.read(2), 0x00);

    unlock(&mut f);
    f.write(0x5555, 0xF0);
    assert_eq!(f.read_mode, ReadMode::Data);
    assert_eq!(f.read(0), 0x33);
    assert_eq!(f.read(1), 0x33);
}

#[test]
fn flash_chip_id_128k() {
    let mut f = Flash::new(0x20000, None);
    unlock(&mut f);
    f.write(0x5555, 0x90);
    assert_eq!(f.read(0), 0x62);
    assert_eq!(f.read(1), 0x13);
    assert_eq!(f.read(2), 0x00);
}

#[test]
fn flash_invalid_command_keeps_step() {
    let mut f = Flash::new(0x10000, None);
    f.write(0x5555, 0xAA);
    assert_eq!(f.state, FlashState::WaitForCommand(1, CommandContext::Plain));

    // A write that matches no command is rejected without resetting the
    // pending step
    f.write(0x0000, 0x00);
    assert_eq!(f.state, FlashState::WaitForCommand(1, CommandContext::Plain));

    // The interrupted sequence can therefore be completed directly
    f.write(0x2AAA, 0x55);
    f.write(0x5555, 0x90);
    assert_eq!(f.read(0), 0xBF);
}

#[test]
fn flash_wrong_seed_length_falls_back_to_erased() {
    let f = Flash::new(0x10000, Some(vec![0u8; 123]));
    assert_eq!(f.get_data().len(), 0x10000);
    assert!(f.get_data().iter().all(|&b| b == 0xFF));

    let g = Flash::new(0x20000, Some(vec![0u8; 0x10000]));
    assert_eq!(g.get_data().len(), 0x20000);
    assert!(g.get_data().iter().all(|&b| b == 0xFF));
}

#[test]
fn flash_identification() {
    let f = Flash::new(0x10000, None);
    assert_eq!(f.get_type(), SaveType::Flash64K);
    assert_eq!(f.storage_type(), "FLASH (512K)");

    let g = Flash::new(0x20000, None);
    assert_eq!(g.get_type(), SaveType::Flash128K);
    assert_eq!(g.storage_type(), "FLASH (1M)");
}

#[test]
fn sram_read_write_in_range() {
    let mut s = Sram::new(None);
    assert_eq!(s.read(0x1F), 0x00);
    s.write(0x1F, 0x7E);
    assert_eq!(s.read(0x1F), 0x7E);
    assert_eq!(s.get_data()[0x1F], 0x7E);
}

#[test]
fn sram_out_of_range_is_harmless() {
    let mut s = Sram::new(Some(vec![0x55u8; 0x10000]));
    assert_eq!(s.read(0x10000), 0xFF);
    s.write(0x10000, 0x00);
    assert_eq!(s.get_data().len(), 0x10000);
    assert!(s.get_data().iter().all(|&b| b == 0x55));
}

#[test]
fn sram_wrong_seed_length_falls_back_to_zero() {
    let s = Sram::new(Some(vec![0xAAu8; 0x20000]));
    assert_eq!(s.get_data().len(), 0x10000);
    assert!(s.get_data().iter().all(|&b| b == 0x00));
}

#[test]
fn sram_identification() {
    let s = Sram::default();
    assert_eq!(s.get_type(), SaveType::SRAM);
    assert_eq!(s.storage_type(), "SRAM (64K)");
    assert_eq!(s.get_data().len(), 0x10000);
    assert!(s.get_data().iter().all(|&b| b == 0x00));
}

#[test]
fn map_defaults_to_zeroed_sram() {
    let m = MemoryMap::new();
    assert_eq!(m.save_device.get_type(), SaveType::SRAM);
    assert_eq!(m.read_byte(0x0E000000), 0x00);
}

#[test]
fn map_eeprom_type_falls_back_to_sram() {
    let mut m = MemoryMap::new();
    m.set_save_device(SaveType::EEPROM4K, None);
    assert_eq!(m.save_device.get_type(), SaveType::SRAM);
    let data = m.save_device.get_data();
    assert_eq!(data.len(), 0x10000);
    assert!(data.iter().all(|&b| b == 0x00));

    m.set_save_device(SaveType::EEPROM64K, Some(vec![0x0Fu8; 0x10000]));
    assert_eq!(m.save_device.get_type(), SaveType::SRAM);
    assert_eq!(m.save_device.get_data()[0], 0x0F);
}

#[test]
fn map_installs_each_device_kind() {
    let mut m = MemoryMap::new();

    m.set_save_device(SaveType::NoSave, Some(vec![0x11u8; 0x10000]));
    assert_eq!(m.save_device.get_type(), SaveType::SRAM);
    // NoSave takes a valid-length seed just as SRAM does
    assert_eq!(m.save_device.get_data()[0], 0x11);

    m.set_save_device(SaveType::NoSave, None);
    assert_eq!(m.save_device.get_type(), SaveType::SRAM);
    assert_eq!(m.save_device.get_data()[0], 0x00);

    m.set_save_device(SaveType::SRAM, Some(vec![0x22u8; 0x10000]));
    assert_eq!(m.save_device.get_type(), SaveType::SRAM);
    assert_eq!(m.save_device.get_data()[0], 0x22);

    m.set_save_device(SaveType::Flash64K, None);
    assert_eq!(m.save_device.get_type(), SaveType::Flash64K);
    assert_eq!(m.save_device.storage_type(), "FLASH (512K)");

    m.set_save_device(SaveType::Flash128K, None);
    assert_eq!(m.save_device.get_type(), SaveType::Flash128K);
    assert_eq!(m.save_device.storage_type(), "FLASH (1M)");
}

#[test]
fn map_routes_save_window_accesses() {
    let mut m = MemoryMap::new();
    m.write_byte(0x0E001234, 0x99);
    assert_eq!(m.read_byte(0x0E001234), 0x99);

    // The offset handed to the device is the low 24 bits: offset
    // 0x800000 is outside the SRAM buffer
    assert_eq!(m.read_byte(0x0E800000), 0xFF);
}

#[test]
fn map_ignores_other_regions() {
    let mut m = MemoryMap::new();
    assert_eq!(m.read_byte(0x02000000), 0xFF);
    assert_eq!(m.read_byte(0x00000000), 0xFF);
    m.write_byte(0x02000000, 0x77);
    assert_eq!(m.read_byte(0x02000000), 0xFF);
    assert_eq!(m.read_byte(0x0E000000), 0x00);
}

#[test]
fn map_drives_flash_protocol() {
    let mut m = MemoryMap::new();
    m.set_save_device(SaveType::Flash64K, None);

    m.write_byte(0x0E005555, 0xAA);
    m.write_byte(0x0E002AAA, 0x55);
    m.write_byte(0x0E005555, 0xA0);
    m.write_byte(0x0E004321, 0x3C);
    assert_eq!(m.read_byte(0x0E004321), 0x3C);

    m.write_byte(0x0E005555, 0xAA);
    m.write_byte(0x0E002AAA, 0x55);
    m.write_byte(0x0E005555, 0x90);
    assert_eq!(m.read_byte(0x0E000000), 0xBF);
    assert_eq!(m.read_byte(0x0E000001), 0xD4);
}

#[test]
fn flash_leave_id_mode_without_entering() {
    let mut f = Flash::new(0x10000, Some(vec![0x44u8; 0x10000]));
    assert_eq!(f.read_mode, ReadMode::Data);
    unlock(&mut f);
    f.write(0x5555, 0xF0);
    assert_eq!(f.read_mode, ReadMode::Data);
    assert_eq!(f.state, FlashState::WaitForCommand(0, CommandContext::Plain));
    assert_eq!(f.read(0), 0x44);
}

#[test]
fn flash_state_round_trip_reproduces_behavior() {
    // Drive a device halfway into a command, capture every serialized
    // field, rebuild a second device from them, and check that both
    // finish the command identically.
    let mut seed = vec![0u8; 0x20000];
    seed[0x10010] = 0xE7;
    let mut f = Flash::new(0x20000, Some(seed));
    unlock(&mut f);
    f.write(0x5555, 0xB0);
    f.write(0, 1);
    unlock(&mut f);
    f.write(0x5555, 0xA0);
    // The device is now armed for a one-byte program in bank 1

    let mut g = Flash {
        state: f.state,
        read_mode: f.read_mode,
        bank: f.bank,
        data: f.get_data().to_vec(),
    };
    assert_eq!(g.state, FlashState::WriteSingleByte);
    assert_eq!(g.bank, 1);

    f.write(0x0010, 0x66);
    g.write(0x0010, 0x66);
    assert_eq!(f.read(0x0010), 0xE7 & 0x66);
    assert_eq!(g.read(0x0010), 0xE7 & 0x66);
    assert_eq!(f.get_data(), g.get_data());
}
