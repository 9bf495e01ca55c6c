//! MBC5: 9-bit ROM bank written in two parts, 4-bit RAM bank.
use vstd::prelude::*;
use crate::cartridge::base::{overlay, CartridgeBase};
use crate::cartridge::{
    cart_wf, effective_ram_bank, effective_rom_bank, initial_state, restored, zeroes, Cartridge,
    CartridgeKind, CartridgeState, MIN_ROM_LEN, RAM_ENABLE_VALUE, RTC_REGISTER_COUNT, RamDumper,
};

verus! {

pub struct Mbc5 {
    cartridge_base: CartridgeBase,
}

impl Mbc5 {
    /// A value of this type is always a cartridge of its kind.
    pub proof fn lemma_kind(&self)
        ensures
            self.state().kind == CartridgeKind::Mbc5,
    {
    }

    pub fn new(rom: Vec<u8>) -> (r: Mbc5)
        requires
            rom.len() >= MIN_ROM_LEN,
        ensures
            r.state() == initial_state(CartridgeKind::Mbc5, rom@),
            cart_wf(r.state()),
    {
        Mbc5 { cartridge_base: CartridgeBase::new(rom) }
    }

    /// The ROM bank mapped at 0x4000-0x7FFF.
    pub fn rom_bank(&self) -> (r: u16)
        ensures
            r == effective_rom_bank(self.state()),
    {
        self.cartridge_base.rom_bank
    }

    /// The RAM bank mapped at 0xA000-0xBFFF.
    pub fn ram_bank(&self) -> (r: u8)
        ensures
            r == effective_ram_bank(self.state()),
    {
        self.cartridge_base.ram_bank
    }
}

impl Cartridge for Mbc5 {
    closed spec fn state(&self) -> CartridgeState {
        CartridgeState {
            kind: CartridgeKind::Mbc5,
            rom: self.cartridge_base.rom@,
            ram: self.cartridge_base.ram@,
            has_battery: self.cartridge_base.has_battery,
            ram_enabled: self.cartridge_base.ram_enabled,
            rom_bank: self.cartridge_base.rom_bank,
            ram_bank: self.cartridge_base.ram_bank,
            ram_banking_mode: false,
            rtc_mode: false,
            rtc_select: 0x08,
            rtc: zeroes(RTC_REGISTER_COUNT as nat),
        }
    }

    fn read(&self, address: u16) -> (r: u8) {
        self.cartridge_base.read_rom(address, self.cartridge_base.rom_bank)
    }

    fn write(&mut self, address: u16, value: u8) {
        match address {
            0x0000..=0x1FFF => {
                self.cartridge_base.ram_enabled = value == RAM_ENABLE_VALUE;
            },
            0x2000..=0x2FFF => {
                // the eight low bits of the bank number; zero stays zero
                let bank = self.cartridge_base.rom_bank;
                self.cartridge_base.rom_bank = (bank & 0x100) | (value as u16);
                assert((bank & 0x100) | (value as u16) <= 0x1FF) by (bit_vector);
            },
            0x3000..=0x3FFF => {
                // the ninth bit of the bank number
                let bank = self.cartridge_base.rom_bank;
                self.cartridge_base.rom_bank = (bank & 0xFF) | (((value & 0x01) as u16) << 8);
                assert((bank & 0xFF) | (((value & 0x01) as u16) << 8u16) <= 0x1FF)
                    by (bit_vector);
            },
            0x4000..=0x5FFF => {
                self.cartridge_base.ram_bank = value & 0x0F;
                assert(value & 0x0F <= 0x0F) by (bit_vector);
            },
            _ => {},
        }
    }

    fn write_ram(&mut self, address: u16, value: u8) {
        let bank = self.cartridge_base.ram_bank;
        self.cartridge_base.write_ram_banked(bank, address, value);
    }

    fn read_ram(&self, address: u16) -> (r: u8) {
        self.cartridge_base.read_ram_banked(self.cartridge_base.ram_bank, address)
    }

    fn savegame_data(&self) -> (r: Option<Vec<u8>>) {
        self.cartridge_base.savegame_data()
    }

    fn dump_savegame<D: RamDumper>(&self, dumper: &D) {
        self.cartridge_base.dump(dumper);
    }

    fn load_savegame<D: RamDumper>(&mut self, dumper: &D) {
        let ghost before = self.state();
        self.cartridge_base.load(dumper);
        proof {
            if before.has_battery {
                let data = choose|data: Seq<u8>|
                    self.cartridge_base.ram@ == #[trigger] overlay(before.ram, data);
                assert(self.state() == restored(before, data));
            }
        }
    }
}

} // verus!
