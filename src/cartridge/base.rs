//! Storage and bank arithmetic shared by every cartridge kind.
use vstd::prelude::*;
use crate::cartridge::{
    create_ram, get_ram_size, has_battery_type, has_ram_type, ram_size_of, rom_read, zeroes,
    CARTRIDGE_TYPE_ADDRESS, DISABLED_RAM_VALUE, MIN_ROM_LEN, RAM_BANK_SIZE, RAM_SIZE_ADDRESS,
    ROM_BANK_SIZE, RamDumper,
};

verus! {

pub struct CartridgeBase {
    pub(crate) rom: Vec<u8>,
    pub(crate) ram: Vec<u8>,
    pub(crate) has_battery: bool,
    pub(crate) ram_enabled: bool,
    pub(crate) rom_bank: u16,
    pub(crate) ram_bank: u8,
}

/// The RAM that a header asks for: none unless the kind has RAM and the size
/// code names a size.
pub open spec fn header_ram(rom: Seq<u8>, has_ram: bool) -> Seq<u8> {
    if has_ram {
        match ram_size_of(rom[RAM_SIZE_ADDRESS as int]) {
            Some(n) => zeroes(n as nat),
            None => Seq::empty(),
        }
    } else {
        Seq::empty()
    }
}

/// Saved bytes laid over the RAM, as far as both reach.
pub open spec fn overlay(ram: Seq<u8>, data: Seq<u8>) -> Seq<u8> {
    Seq::new(ram.len(), |i: int| if i < data.len() { data[i] } else { ram[i] })
}

/// What a cartridge hands over to be saved: its RAM, where a battery keeps
/// RAM, else nothing.
pub open spec fn savegame_of(has_battery: bool, ram: Seq<u8>) -> Option<Seq<u8>> {
    if has_battery && ram.len() > 0 {
        Some(ram)
    } else {
        None
    }
}

/// The byte index that an offset into the RAM window reaches in a bank.
pub open spec fn banked_index(bank: int, offset: u16, len: nat) -> int {
    (bank * RAM_BANK_SIZE + offset) % len as int
}

pub(crate) fn has_ram_type_code(t: u8) -> (r: bool)
    ensures
        r == has_ram_type(t),
{
    matches!(t, 0x02 | 0x03 | 0x08 | 0x09 | 0x12 | 0x13 | 0x1A | 0x1B | 0x1D | 0x1E)
}

pub(crate) fn has_battery_type_code(t: u8) -> (r: bool)
    ensures
        r == has_battery_type(t),
{
    matches!(t, 0x03 | 0x06 | 0x09 | 0x13 | 0x1B | 0x1E)
}

impl CartridgeBase {
    /// The storage of a cartridge whose kind takes its RAM from the header.
    pub(crate) fn new(rom: Vec<u8>) -> (r: Self)
        requires
            rom.len() >= MIN_ROM_LEN,
        ensures
            r.rom@ == rom@,
            r.ram@ == header_ram(rom@, has_ram_type(rom@[CARTRIDGE_TYPE_ADDRESS as int])),
            r.has_battery == has_battery_type(rom@[CARTRIDGE_TYPE_ADDRESS as int]),
            !r.ram_enabled,
            r.rom_bank == 1,
            r.ram_bank == 0,
    {
        let t = rom[CARTRIDGE_TYPE_ADDRESS];
        CartridgeBase::from_header(rom, has_ram_type_code(t), has_battery_type_code(t))
    }

    pub(crate) fn from_header(rom: Vec<u8>, has_ram: bool, has_battery: bool) -> (r: Self)
        requires
            rom.len() >= MIN_ROM_LEN,
        ensures
            r.rom@ == rom@,
            r.ram@ == header_ram(rom@, has_ram),
            r.has_battery == has_battery,
            !r.ram_enabled,
            r.rom_bank == 1,
            r.ram_bank == 0,
    {
        let ram = if has_ram {
            match create_ram(get_ram_size(&rom)) {
                Some(v) => v,
                None => Vec::new(),
            }
        } else {
            Vec::new()
        };
        assert(ram@ =~= header_ram(rom@, has_ram));
        CartridgeBase { rom, ram, has_battery, ram_enabled: false, rom_bank: 1, ram_bank: 0 }
    }

    /// A read of the ROM window with `bank` mapped at 0x4000.
    pub(crate) fn read_rom(&self, address: u16, bank: u16) -> (r: u8)
        requires
            self.rom.len() >= MIN_ROM_LEN,
        ensures
            r == rom_read(self.rom@, bank as int, address),
    {
        let len = self.rom.len();
        if address < 0x4000 {
            self.rom[(address as usize) % len]
        } else if address < 0x8000 {
            let index = (bank as usize) * ROM_BANK_SIZE + ((address - 0x4000) as usize);
            self.rom[index % len]
        } else {
            0xFF
        }
    }

    fn ram_slot(&self, bank: u8, offset: u16) -> (r: usize)
        requires
            self.ram.len() > 0,
        ensures
            r == banked_index(bank as int, offset, self.ram@.len()),
            r < self.ram.len(),
    {
        ((bank as usize) * RAM_BANK_SIZE + (offset as usize)) % self.ram.len()
    }

    /// A read of the RAM window with `bank` mapped.
    pub(crate) fn read_ram_banked(&self, bank: u8, offset: u16) -> (r: u8)
        ensures
            r == (if !self.ram_enabled || self.ram.len() == 0 {
                DISABLED_RAM_VALUE
            } else {
                self.ram@[banked_index(bank as int, offset, self.ram@.len())]
            }),
    {
        if !self.ram_enabled || self.ram.len() == 0 {
            DISABLED_RAM_VALUE
        } else {
            self.ram[self.ram_slot(bank, offset)]
        }
    }

    /// A write to the RAM window with `bank` mapped.
    pub(crate) fn write_ram_banked(&mut self, bank: u8, offset: u16, value: u8)
        ensures
            final(self).ram@ == (if !old(self).ram_enabled || old(self).ram.len() == 0 {
                old(self).ram@
            } else {
                old(self).ram@.update(
                    banked_index(bank as int, offset, old(self).ram@.len()),
                    value,
                )
            }),
            final(self).rom@ == old(self).rom@,
            final(self).has_battery == old(self).has_battery,
            final(self).ram_enabled == old(self).ram_enabled,
            final(self).rom_bank == old(self).rom_bank,
            final(self).ram_bank == old(self).ram_bank,
    {
        if self.ram_enabled && self.ram.len() > 0 {
            let slot = self.ram_slot(bank, offset);
            self.ram.set(slot, value);
        }
    }

    /// Copies saved bytes over the RAM, as far as both reach.
    pub(crate) fn restore(&mut self, data: &Vec<u8>)
        ensures
            final(self).ram@ == overlay(old(self).ram@, data@),
            final(self).rom@ == old(self).rom@,
            final(self).has_battery == old(self).has_battery,
            final(self).ram_enabled == old(self).ram_enabled,
            final(self).rom_bank == old(self).rom_bank,
            final(self).ram_bank == old(self).ram_bank,
    {
        let n = self.ram.len();
        let mut i: usize = 0;
        while i < n && i < data.len()
            invariant
                n == old(self).ram@.len(),
                self.ram@.len() == n,
                i <= n,
                i <= data@.len(),
                forall|j: int| 0 <= j < i ==> self.ram@[j] == data@[j],
                forall|j: int| i <= j < n ==> self.ram@[j] == old(self).ram@[j],
                self.rom@ == old(self).rom@,
                self.has_battery == old(self).has_battery,
                self.ram_enabled == old(self).ram_enabled,
                self.rom_bank == old(self).rom_bank,
                self.ram_bank == old(self).ram_bank,
            decreases n - i,
        {
            self.ram.set(i, data[i]);
            i += 1;
        }
        assert forall|j: int| 0 <= j < n implies self.ram@[j] == overlay(
            old(self).ram@,
            data@,
        )[j] by {
            if j < i {
            } else {
                assert(j >= data@.len());
            }
        }
        assert(self.ram@ =~= overlay(old(self).ram@, data@));
    }

    /// A copy of the RAM if a battery keeps it, else nothing.
    pub(crate) fn savegame_data(&self) -> (r: Option<Vec<u8>>)
        ensures
            match r {
                Some(data) => savegame_of(self.has_battery, self.ram@) == Some(data@),
                None => savegame_of(self.has_battery, self.ram@) is None,
            },
    {
        if self.has_battery && self.ram.len() > 0 {
            let mut data: Vec<u8> = Vec::new();
            let mut i: usize = 0;
            while i < self.ram.len()
                invariant
                    i <= self.ram@.len(),
                    data@ == self.ram@.subrange(0, i as int),
                decreases self.ram@.len() - i,
            {
                data.push(self.ram[i]);
                i += 1;
                assert(data@ =~= self.ram@.subrange(0, i as int));
            }
            assert(data@ =~= self.ram@);
            Some(data)
        } else {
            None
        }
    }

    pub(crate) fn dump<D: RamDumper>(&self, dumper: &D) {
        match self.savegame_data() {
            Some(data) => dumper.dump(&data),
            None => {},
        }
    }

    pub(crate) fn load<D: RamDumper>(&mut self, dumper: &D)
        ensures
            !old(self).has_battery ==> *final(self) == *old(self),
            old(self).has_battery ==> exists|data: Seq<u8>|
                final(self).ram@ == #[trigger] overlay(old(self).ram@, data),
            final(self).rom@ == old(self).rom@,
            final(self).has_battery == old(self).has_battery,
            final(self).ram_enabled == old(self).ram_enabled,
            final(self).rom_bank == old(self).rom_bank,
            final(self).ram_bank == old(self).ram_bank,
    {
        if self.has_battery {
            match dumper.load() {
                Some(data) => self.restore(&data),
                None => {
                    let ghost old_ram = self.ram@;
                    assert(self.ram@ =~= overlay(old_ram, Seq::empty()));
                },
            }
        }
    }
}

} // verus!
