//! A cartridge without a bank controller: 32 KiB of ROM, at most one RAM bank.
use vstd::prelude::*;
use crate::cartridge::base::{overlay, CartridgeBase};
use crate::cartridge::{
    cart_wf, initial_state, restored, zeroes, Cartridge, CartridgeKind, CartridgeState, MIN_ROM_LEN,
    RTC_REGISTER_COUNT, RamDumper,
};

verus! {

pub struct RomOnlyCartridge {
    cartridge_base: CartridgeBase,
}

impl RomOnlyCartridge {
    /// A value of this type is always a cartridge of its kind.
    pub proof fn lemma_kind(&self)
        ensures
            self.state().kind == CartridgeKind::RomOnly,
    {
    }

    pub fn new(rom: Vec<u8>) -> (r: RomOnlyCartridge)
        requires
            rom.len() >= MIN_ROM_LEN,
        ensures
            r.state() == initial_state(CartridgeKind::RomOnly, rom@),
            cart_wf(r.state()),
    {
        let mut cartridge_base = CartridgeBase::new(rom);
        // without a controller, RAM that is there is always reachable
        cartridge_base.ram_enabled = true;
        RomOnlyCartridge { cartridge_base }
    }

}

impl Cartridge for RomOnlyCartridge {
    closed spec fn state(&self) -> CartridgeState {
        CartridgeState {
            kind: CartridgeKind::RomOnly,
            rom: self.cartridge_base.rom@,
            ram: self.cartridge_base.ram@,
            has_battery: self.cartridge_base.has_battery,
            ram_enabled: self.cartridge_base.ram_enabled,
            rom_bank: self.cartridge_base.rom_bank,
            ram_bank: self.cartridge_base.ram_bank,
            ram_banking_mode: false,
            rtc_mode: false,
            rtc_select: 0x08,
            rtc: zeroes(RTC_REGISTER_COUNT as nat),
        }
    }

    fn read(&self, address: u16) -> (r: u8) {
        self.cartridge_base.read_rom(address, 1)
    }

    fn write(&mut self, address: u16, value: u8) {
        // nothing to program: writes to ROM are ignored
    }

    fn write_ram(&mut self, address: u16, value: u8) {
        self.cartridge_base.write_ram_banked(0, address, value);
    }

    fn read_ram(&self, address: u16) -> (r: u8) {
        self.cartridge_base.read_ram_banked(0, address)
    }

    fn savegame_data(&self) -> (r: Option<Vec<u8>>) {
        self.cartridge_base.savegame_data()
    }

    fn dump_savegame<D: RamDumper>(&self, dumper: &D) {
        self.cartridge_base.dump(dumper);
    }

    fn load_savegame<D: RamDumper>(&mut self, dumper: &D) {
        let ghost before = self.state();
        self.cartridge_base.load(dumper);
        proof {
            if before.has_battery {
                let data = choose|data: Seq<u8>|
                    self.cartridge_base.ram@ == #[trigger] overlay(before.ram, data);
                assert(self.state() == restored(before, data));
            }
        }
    }
}

} // verus!
