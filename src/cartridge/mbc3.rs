//! MBC3: 7-bit ROM bank, four RAM banks, five clock registers.
use vstd::prelude::*;
use crate::cartridge::base::{overlay, CartridgeBase};
use crate::cartridge::{
    cart_wf, effective_ram_bank, effective_rom_bank, initial_state, restored, zeroes, Cartridge,
    CartridgeKind, CartridgeState, MIN_ROM_LEN, RAM_ENABLE_VALUE, RTC_REGISTER_COUNT, RamDumper,
};

verus! {

pub struct Mbc3 {
    cartridge_base: CartridgeBase,
    rtc_mode: bool,
    rtc_select: u8,
    rtc: Vec<u8>,
}

impl Mbc3 {
    /// A value of this type is always a cartridge of its kind.
    pub proof fn lemma_kind(&self)
        ensures
            self.state().kind == CartridgeKind::Mbc3,
    {
    }

    pub fn new(rom: Vec<u8>) -> (r: Mbc3)
        requires
            rom.len() >= MIN_ROM_LEN,
        ensures
            r.state() == initial_state(CartridgeKind::Mbc3, rom@),
            cart_wf(r.state()),
    {
        let cartridge_base = CartridgeBase::new(rom);
        let rtc = vec![0u8; RTC_REGISTER_COUNT];
        assert(rtc@ =~= zeroes(RTC_REGISTER_COUNT as nat));
        Mbc3 { cartridge_base, rtc_mode: false, rtc_select: 0x08, rtc }
    }

    /// The ROM bank mapped at 0x4000-0x7FFF.
    pub fn rom_bank(&self) -> (r: u16)
        ensures
            r == effective_rom_bank(self.state()),
    {
        self.cartridge_base.rom_bank
    }

    /// The RAM bank mapped at 0xA000-0xBFFF.
    pub fn ram_bank(&self) -> (r: u8)
        ensures
            r == effective_ram_bank(self.state()),
    {
        self.cartridge_base.ram_bank
    }

    /// Whether the RAM window shows a clock register.
    pub fn rtc_mode(&self) -> (r: bool)
        ensures
            r == self.state().rtc_mode,
    {
        self.rtc_mode
    }
}

impl Cartridge for Mbc3 {
    closed spec fn state(&self) -> CartridgeState {
        CartridgeState {
            kind: CartridgeKind::Mbc3,
            rom: self.cartridge_base.rom@,
            ram: self.cartridge_base.ram@,
            has_battery: self.cartridge_base.has_battery,
            ram_enabled: self.cartridge_base.ram_enabled,
            rom_bank: self.cartridge_base.rom_bank,
            ram_bank: self.cartridge_base.ram_bank,
            ram_banking_mode: false,
            rtc_mode: self.rtc_mode,
            rtc_select: self.rtc_select,
            rtc: self.rtc@,
        }
    }

    fn read(&self, address: u16) -> (r: u8) {
        self.cartridge_base.read_rom(address, self.cartridge_base.rom_bank)
    }

    fn write(&mut self, address: u16, value: u8) {
        match address {
            0x0000..=0x1FFF => {
                self.cartridge_base.ram_enabled = value == RAM_ENABLE_VALUE;
            },
            0x2000..=0x3FFF => {
                self.cartridge_base.rom_bank = (value & 0x7F) as u16;
                assert(value & 0x7F <= 0x7F) by (bit_vector);
            },
            0x4000..=0x5FFF => {
                if value <= 0x03 {
                    self.rtc_mode = false;
                    self.cartridge_base.ram_bank = value;
                } else if 0x08 <= value && value <= 0x0C {
                    self.rtc_mode = true;
                    self.rtc_select = value;
                }
            },
            0xA000..=0xBFFF => {
                self.write_ram(address - 0xA000, value);
            },
            _ => {},
        }
    }

    fn write_ram(&mut self, address: u16, value: u8) {
        if self.cartridge_base.ram_enabled && self.rtc_mode {
            let index = (self.rtc_select - 0x08) as usize;
            self.rtc.set(index, value);
        } else {
            let bank = self.cartridge_base.ram_bank;
            self.cartridge_base.write_ram_banked(bank, address, value);
        }
    }

    fn read_ram(&self, address: u16) -> (r: u8) {
        if self.cartridge_base.ram_enabled && self.rtc_mode {
            self.rtc[(self.rtc_select - 0x08) as usize]
        } else {
            self.cartridge_base.read_ram_banked(self.cartridge_base.ram_bank, address)
        }
    }

    fn savegame_data(&self) -> (r: Option<Vec<u8>>) {
        self.cartridge_base.savegame_data()
    }

    fn dump_savegame<D: RamDumper>(&self, dumper: &D) {
        self.cartridge_base.dump(dumper);
    }

    fn load_savegame<D: RamDumper>(&mut self, dumper: &D) {
        let ghost before = self.state();
        self.cartridge_base.load(dumper);
        proof {
            if before.has_battery {
                let data = choose|data: Seq<u8>|
                    self.cartridge_base.ram@ == #[trigger] overlay(before.ram, data);
                assert(self.state() == restored(before, data));
            }
        }
    }
}

} // verus!
