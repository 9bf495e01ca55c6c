use std::cell::RefCell;

use gb_core::cartridge::mbc1::Mbc1;
use gb_core::cartridge::mbc2::Mbc2;
use gb_core::cartridge::mbc3::Mbc3;
use gb_core::cartridge::mbc5::Mbc5;
use gb_core::cartridge::rom_only::RomOnlyCartridge;
use gb_core::cartridge::{
    create_ram, get_ram_size, new_cartridge, AnyCartridge, Cartridge, CartridgeError, RamDumper,
    DISABLED_RAM_VALUE,
};

/// A ROM of `banks` 16 KiB banks whose bank n starts with the byte n.
fn rom(kind: u8, ram_code: u8, banks: usize) -> Vec<u8> {
    let mut rom = vec![0u8; banks * 0x4000];
    for n in 0..banks {
        rom[n * 0x4000] = n as u8;
    }
    rom[0x147] = kind;
    rom[0x149] = ram_code;
    rom
}

struct FakeDumper {
    saved: RefCell<Option<Vec<u8>>>,
}

impl RamDumper for FakeDumper {
    fn dump(&self, data: &Vec<u8>) {
        *self.saved.borrow_mut() = Some(data.clone());
    }

    fn load(&self) -> Option<Vec<u8>> {
        self.saved.borrow().clone()
    }
}

#[test]
fn mbc1_bank_zero_selects_bank_one() {
    let mut c = Mbc1::new(rom(0x01, 0, 8));
    c.write(0x2000, 0x00);
    assert_eq!(c.rom_bank(), 1);
    assert_eq!(c.read(0x4000), 1);
    c.write(0x2000, 0x05);
    assert_eq!(c.rom_bank(), 5);
    assert_eq!(c.read(0x4000), 5);
    assert_eq!(c.read(0x0000), 0);
}

#[test]
fn mbc1_upper_bits_extend_rom_bank_or_select_ram_bank() {
    let mut c = Mbc1::new(rom(0x03, 0x03, 8));
    c.write(0x2000, 0x02);
    c.write(0x4000, 0x01);
    assert_eq!(c.rom_bank(), 0x22);
    assert_eq!(c.ram_bank(), 0);
    c.write(0x6000, 0x01);
    assert_eq!(c.rom_bank(), 0x02);
    assert_eq!(c.ram_bank(), 1);
}

#[test]
fn mbc5_bank_zero_stays_zero() {
    let mut c = Mbc5::new(rom(0x19, 0, 8));
    c.write(0x2000, 0x00);
    assert_eq!(c.rom_bank(), 0);
    assert_eq!(c.read(0x4000), 0);
    c.write(0x2000, 0x03);
    assert_eq!(c.read(0x4000), 3);
}

#[test]
fn mbc5_ninth_bit_and_wrapping() {
    let mut c = Mbc5::new(rom(0x19, 0, 8));
    c.write(0x2000, 0x02);
    c.write(0x3000, 0x01);
    assert_eq!(c.rom_bank(), 0x102);
    // bank 0x102 of an 8-bank ROM wraps to bank 2
    assert_eq!(c.read(0x4000), 2);
    c.write(0x4000, 0xFF);
    assert_eq!(c.ram_bank(), 0x0F);
}

#[test]
fn mbc3_ram_reads_back_only_while_enabled() {
    let mut c = Mbc3::new(rom(0x13, 0x03, 4));
    c.write(0x0000, 0x0A);
    c.write(0xA000, 0x42);
    assert_eq!(c.read_ram(0), 0x42);
    c.write(0x0000, 0x00);
    assert_eq!(c.read_ram(0), DISABLED_RAM_VALUE);
    c.write(0x0000, 0x0A);
    assert_eq!(c.read_ram(0), 0x42);
}

#[test]
fn mbc3_bank_0b_selects_clock_register() {
    let mut c = Mbc3::new(rom(0x13, 0x03, 4));
    c.write(0x0000, 0x0A);
    c.write(0xA000, 0x42);
    c.write(0x4000, 0x0B);
    assert!(c.rtc_mode());
    c.write(0xA000, 0x17);
    assert_eq!(c.read_ram(0), 0x17);
    c.write(0x4000, 0x00);
    assert!(!c.rtc_mode());
    assert_eq!(c.read_ram(0), 0x42);
}

#[test]
fn mbc3_rom_bank_is_seven_bits() {
    let mut c = Mbc3::new(rom(0x12, 0x03, 4));
    c.write(0x2000, 0x83);
    assert_eq!(c.rom_bank(), 0x03);
    assert_eq!(c.read(0x4000), 3);
    c.write(0x4000, 0x02);
    assert_eq!(c.ram_bank(), 2);
}

#[test]
fn disabled_ram_reads_sentinel_and_ignores_writes() {
    let mut c = Mbc5::new(rom(0x1A, 0x02, 2));
    assert_eq!(c.read_ram(0x10), DISABLED_RAM_VALUE);
    c.write_ram(0x10, 0x99);
    c.write(0x0000, 0x0A);
    assert_eq!(c.read_ram(0x10), 0x00);
    c.write_ram(0x10, 0x99);
    assert_eq!(c.read_ram(0x10), 0x99);
    // any value but 0x0A disables
    c.write(0x0000, 0x0B);
    assert_eq!(c.read_ram(0x10), DISABLED_RAM_VALUE);
}

#[test]
fn mbc2_ram_is_four_bits_wide() {
    let mut c = Mbc2::new(rom(0x06, 0, 4));
    c.write(0x0000, 0x0A);
    c.write_ram(0x005, 0xAB);
    assert_eq!(c.read_ram(0x005), 0x0B);
    // 512 cells repeat through the window
    assert_eq!(c.read_ram(0x205), 0x0B);
    c.write(0x0100, 0x03);
    assert_eq!(c.rom_bank(), 3);
    c.write(0x0100, 0x00);
    assert_eq!(c.rom_bank(), 1);
}

#[test]
fn rom_only_ignores_writes() {
    let mut c = RomOnlyCartridge::new(rom(0x00, 0, 2));
    c.write(0x2000, 0x05);
    assert_eq!(c.read(0x4000), 1);
    assert_eq!(c.read(0x0000), 0);
    assert_eq!(c.read_ram(0), DISABLED_RAM_VALUE);
}

#[test]
fn rom_only_with_ram_needs_no_enable() {
    let mut c = RomOnlyCartridge::new(rom(0x08, 0x02, 2));
    c.write_ram(0x0003, 0x5A);
    assert_eq!(c.read_ram(0x0003), 0x5A);
}

#[test]
fn factory_picks_kind_from_header() {
    assert!(matches!(new_cartridge(rom(0x00, 0, 2)), Ok(AnyCartridge::RomOnly(_))));
    assert!(matches!(new_cartridge(rom(0x09, 0, 2)), Ok(AnyCartridge::RomOnly(_))));
    assert!(matches!(new_cartridge(rom(0x02, 0, 2)), Ok(AnyCartridge::Mbc1(_))));
    assert!(matches!(new_cartridge(rom(0x05, 0, 2)), Ok(AnyCartridge::Mbc2(_))));
    assert!(matches!(new_cartridge(rom(0x13, 0, 2)), Ok(AnyCartridge::Mbc3(_))));
    assert!(matches!(new_cartridge(rom(0x1E, 0, 2)), Ok(AnyCartridge::Mbc5(_))));
}

#[test]
fn factory_rejects_unknown_type() {
    assert!(matches!(new_cartridge(rom(0x20, 0, 2)), Err(CartridgeError::UnknownType(0x20))));
    assert!(matches!(new_cartridge(rom(0x0B, 0, 2)), Err(CartridgeError::UnknownType(0x0B))));
}

#[test]
fn factory_rejects_short_rom() {
    assert!(matches!(new_cartridge(vec![0u8; 0x149]), Err(CartridgeError::RomTooShort(0x149))));
    assert!(matches!(new_cartridge(Vec::new()), Err(CartridgeError::RomTooShort(0))));
}

#[test]
fn factory_accepts_rom_that_just_holds_the_header_bytes() {
    let mut rom = vec![0u8; 0x14A];
    rom[0x147] = 0x13;
    rom[0x149] = 0x01;
    let mut c = new_cartridge(rom).unwrap();
    assert!(matches!(c, AnyCartridge::Mbc3(_)));
    c.write(0x0000, 0x0A);
    c.write(0xA000, 0x42);
    assert_eq!(c.read_ram(0), 0x42);
    assert_eq!(c.read(0x0147), 0x13);
    assert_eq!(c.savegame_data().map(|v| v.len()), Some(2048));
}

#[test]
fn ram_size_codes() {
    let sizes = [
        (0x00u8, None),
        (0x01, Some(2048usize)),
        (0x02, Some(8192)),
        (0x03, Some(32768)),
        (0x04, Some(131072)),
        (0x05, Some(65536)),
        (0x06, None),
    ];
    for (code, size) in sizes {
        assert_eq!(get_ram_size(&rom(0x00, code, 2)), size);
    }
}

#[test]
fn create_ram_is_zeroed() {
    assert_eq!(create_ram(None), None);
    assert_eq!(create_ram(Some(4)), Some(vec![0u8; 4]));
    assert_eq!(create_ram(Some(0)), Some(Vec::new()));
}

#[test]
fn battery_ram_dumps_and_loads() {
    let dumper = FakeDumper { saved: RefCell::new(None) };
    let mut c = Mbc3::new(rom(0x13, 0x01, 2));
    c.write(0x0000, 0x0A);
    c.write(0xA001, 0x77);
    c.dump_savegame(&dumper);
    assert_eq!(dumper.saved.borrow().as_ref().map(|v| v.len()), Some(2048));
    let mut fresh = Mbc3::new(rom(0x13, 0x01, 2));
    fresh.load_savegame(&dumper);
    fresh.write(0x0000, 0x0A);
    assert_eq!(fresh.read_ram(1), 0x77);
}

#[test]
fn no_battery_means_no_dump() {
    let dumper = FakeDumper { saved: RefCell::new(None) };
    let mut c = Mbc3::new(rom(0x12, 0x01, 2));
    c.write(0x0000, 0x0A);
    c.write(0xA001, 0x77);
    c.dump_savegame(&dumper);
    assert!(dumper.saved.borrow().is_none());
}

#[test]
fn savegame_data_is_ram_only_with_battery() {
    let mut c = Mbc5::new(rom(0x1B, 0x02, 2));
    c.write(0x0000, 0x0A);
    c.write_ram(0x0004, 0x31);
    let data = c.savegame_data().unwrap();
    assert_eq!(data.len(), 8192);
    assert_eq!(data[4], 0x31);
    assert_eq!(Mbc5::new(rom(0x1A, 0x02, 2)).savegame_data(), None);
    // a battery type whose header names no RAM has nothing to save
    assert_eq!(Mbc3::new(rom(0x13, 0x00, 2)).savegame_data(), None);
    // the MBC2 keeps its built-in cells on the battery
    assert_eq!(Mbc2::new(rom(0x06, 0x00, 2)).savegame_data().map(|v| v.len()), Some(512));
}
