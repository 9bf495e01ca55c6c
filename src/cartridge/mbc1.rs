//! MBC1: 5-bit ROM bank in which zero means one, a 2-bit register that
//! extends the ROM bank or selects a RAM bank depending on the banking mode.
use vstd::prelude::*;
use crate::cartridge::base::{overlay, CartridgeBase};
use crate::cartridge::{
    cart_wf, effective_ram_bank, effective_rom_bank, initial_state, restored, zeroes, Cartridge,
    CartridgeKind, CartridgeState, MIN_ROM_LEN, RAM_ENABLE_VALUE, RTC_REGISTER_COUNT, RamDumper,
};

verus! {

pub struct Mbc1 {
    cartridge_base: CartridgeBase,
    ram_banking_mode: bool,
}

impl Mbc1 {
    /// A value of this type is always a cartridge of its kind.
    pub proof fn lemma_kind(&self)
        ensures
            self.state().kind == CartridgeKind::Mbc1,
    {
    }

    pub fn new(rom: Vec<u8>) -> (r: Mbc1)
        requires
            rom.len() >= MIN_ROM_LEN,
        ensures
            r.state() == initial_state(CartridgeKind::Mbc1, rom@),
            cart_wf(r.state()),
    {
        Mbc1 { cartridge_base: CartridgeBase::new(rom), ram_banking_mode: false }
    }

    /// The ROM bank mapped at 0x4000-0x7FFF.
    pub fn rom_bank(&self) -> (r: u16)
        requires
            cart_wf(self.state()),
        ensures
            r == effective_rom_bank(self.state()),
    {
        if self.ram_banking_mode {
            self.cartridge_base.rom_bank
        } else {
            (self.cartridge_base.ram_bank as u16) * 32 + self.cartridge_base.rom_bank
        }
    }

    /// The RAM bank mapped at 0xA000-0xBFFF.
    pub fn ram_bank(&self) -> (r: u8)
        ensures
            r == effective_ram_bank(self.state()),
    {
        if self.ram_banking_mode {
            self.cartridge_base.ram_bank
        } else {
            0
        }
    }
}

impl Cartridge for Mbc1 {
    closed spec fn state(&self) -> CartridgeState {
        CartridgeState {
            kind: CartridgeKind::Mbc1,
            rom: self.cartridge_base.rom@,
            ram: self.cartridge_base.ram@,
            has_battery: self.cartridge_base.has_battery,
            ram_enabled: self.cartridge_base.ram_enabled,
            rom_bank: self.cartridge_base.rom_bank,
            ram_bank: self.cartridge_base.ram_bank,
            ram_banking_mode: self.ram_banking_mode,
            rtc_mode: false,
            rtc_select: 0x08,
            rtc: zeroes(RTC_REGISTER_COUNT as nat),
        }
    }

    fn read(&self, address: u16) -> (r: u8) {
        self.cartridge_base.read_rom(address, self.rom_bank())
    }

    fn write(&mut self, address: u16, value: u8) {
        match address {
            0x0000..=0x1FFF => {
                self.cartridge_base.ram_enabled = value == RAM_ENABLE_VALUE;
            },
            0x2000..=0x3FFF => {
                // bank zero cannot be mapped here: it reads as bank one
                let low = value & 0x1F;
                self.cartridge_base.rom_bank = if low == 0 { 1 } else { low as u16 };
                assert(value & 0x1F <= 0x1F) by (bit_vector);
            },
            0x4000..=0x5FFF => {
                self.cartridge_base.ram_bank = value & 0x03;
                assert(value & 0x03 <= 0x03) by (bit_vector);
            },
            0x6000..=0x7FFF => {
                self.ram_banking_mode = value & 0x01 == 1;
            },
            _ => {},
        }
    }

    fn write_ram(&mut self, address: u16, value: u8) {
        let bank = self.ram_bank();
        self.cartridge_base.write_ram_banked(bank, address, value);
    }

    fn read_ram(&self, address: u16) -> (r: u8) {
        self.cartridge_base.read_ram_banked(self.ram_bank(), address)
    }

    fn savegame_data(&self) -> (r: Option<Vec<u8>>) {
        self.cartridge_base.savegame_data()
    }

    fn dump_savegame<D: RamDumper>(&self, dumper: &D) {
        self.cartridge_base.dump(dumper);
    }

    fn load_savegame<D: RamDumper>(&mut self, dumper: &D) {
        let ghost before = self.state();
        self.cartridge_base.load(dumper);
        proof {
            if before.has_battery {
                let data = choose|data: Seq<u8>|
                    self.cartridge_base.ram@ == #[trigger] overlay(before.ram, data);
                assert(self.state() == restored(before, data));
            }
        }
    }
}

} // verus!
