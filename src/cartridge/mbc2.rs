//! MBC2: 4-bit ROM bank, 512 built-in RAM cells four bits wide.
use vstd::prelude::*;
use crate::cartridge::base::{has_battery_type_code, overlay, CartridgeBase};
use crate::cartridge::{
    cart_wf, effective_rom_bank, initial_state, restored, zeroes, CARTRIDGE_TYPE_ADDRESS, Cartridge,
    CartridgeKind, CartridgeState, DISABLED_RAM_VALUE, MBC2_RAM_SIZE, MIN_ROM_LEN, RAM_ENABLE_VALUE,
    RTC_REGISTER_COUNT, RamDumper,
};

verus! {

pub struct Mbc2 {
    cartridge_base: CartridgeBase,
}

impl Mbc2 {
    /// A value of this type is always a cartridge of its kind.
    pub proof fn lemma_kind(&self)
        ensures
            self.state().kind == CartridgeKind::Mbc2,
    {
    }

    pub fn new(rom: Vec<u8>) -> (r: Mbc2)
        requires
            rom.len() >= MIN_ROM_LEN,
        ensures
            r.state() == initial_state(CartridgeKind::Mbc2, rom@),
            cart_wf(r.state()),
    {
        let has_battery = has_battery_type_code(rom[CARTRIDGE_TYPE_ADDRESS]);
        let mut cartridge_base = CartridgeBase::from_header(rom, false, has_battery);
        cartridge_base.ram = vec![0u8; MBC2_RAM_SIZE];
        assert(cartridge_base.ram@ =~= zeroes(MBC2_RAM_SIZE as nat));
        Mbc2 { cartridge_base }
    }

    /// The ROM bank mapped at 0x4000-0x7FFF.
    pub fn rom_bank(&self) -> (r: u16)
        ensures
            r == effective_rom_bank(self.state()),
    {
        self.cartridge_base.rom_bank
    }

}

impl Cartridge for Mbc2 {
    closed spec fn state(&self) -> CartridgeState {
        CartridgeState {
            kind: CartridgeKind::Mbc2,
            rom: self.cartridge_base.rom@,
            ram: self.cartridge_base.ram@,
            has_battery: self.cartridge_base.has_battery,
            ram_enabled: self.cartridge_base.ram_enabled,
            rom_bank: self.cartridge_base.rom_bank,
            ram_bank: self.cartridge_base.ram_bank,
            ram_banking_mode: false,
            rtc_mode: false,
            rtc_select: 0x08,
            rtc: zeroes(RTC_REGISTER_COUNT as nat),
        }
    }

    fn read(&self, address: u16) -> (r: u8) {
        self.cartridge_base.read_rom(address, self.cartridge_base.rom_bank)
    }

    fn write(&mut self, address: u16, value: u8) {
        // below 0x4000, bit 8 of the address tells RAM enable from bank select
        if address < 0x4000 {
            if address & 0x0100 == 0 {
                self.cartridge_base.ram_enabled = value == RAM_ENABLE_VALUE;
            } else {
                let low = value & 0x0F;
                self.cartridge_base.rom_bank = if low == 0 { 1 } else { low as u16 };
                assert(value & 0x0F <= 0x0F) by (bit_vector);
            }
        }
    }

    fn write_ram(&mut self, address: u16, value: u8) {
        self.cartridge_base.write_ram_banked(0, address, value & 0x0F);
    }

    fn read_ram(&self, address: u16) -> (r: u8) {
        if self.cartridge_base.ram_enabled {
            self.cartridge_base.read_ram_banked(0, address) & 0x0F
        } else {
            DISABLED_RAM_VALUE
        }
    }

    fn savegame_data(&self) -> (r: Option<Vec<u8>>) {
        self.cartridge_base.savegame_data()
    }

    fn dump_savegame<D: RamDumper>(&self, dumper: &D) {
        self.cartridge_base.dump(dumper);
    }

    fn load_savegame<D: RamDumper>(&mut self, dumper: &D) {
        let ghost before = self.state();
        self.cartridge_base.load(dumper);
        proof {
            if before.has_battery {
                let data = choose|data: Seq<u8>|
                    self.cartridge_base.ram@ == #[trigger] overlay(before.ram, data);
                assert(self.state() == restored(before, data));
            }
        }
    }
}

} // verus!
