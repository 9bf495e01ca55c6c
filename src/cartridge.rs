//! Cartridges: the shared model of their state, the capability trait, the
//! bank-controller variants and the factory that picks one from the ROM header.
use vstd::prelude::*;

pub mod base;
pub mod mbc1;
pub mod mbc2;
pub mod mbc3;
pub mod mbc5;
pub mod rom_only;

use crate::cartridge::base::{header_ram, overlay, savegame_of};
use crate::cartridge::mbc1::Mbc1;
use crate::cartridge::mbc2::Mbc2;
use crate::cartridge::mbc3::Mbc3;
use crate::cartridge::mbc5::Mbc5;
use crate::cartridge::rom_only::RomOnlyCartridge;

verus! {

pub const CARTRIDGE_TYPE_ADDRESS: usize = 0x147;
pub const RAM_SIZE_ADDRESS: usize = 0x149;
/// A ROM must reach the header bytes that construction reads (up to 0x149).
pub const MIN_ROM_LEN: usize = 0x14A;
pub const ROM_BANK_SIZE: usize = 0x4000;
pub const RAM_BANK_SIZE: usize = 0x2000;
/// Size of the built-in nibble RAM of the MBC2.
pub const MBC2_RAM_SIZE: usize = 512;
pub const RTC_REGISTER_COUNT: usize = 5;
/// The value that enables external RAM when written to 0x0000-0x1FFF.
pub const RAM_ENABLE_VALUE: u8 = 0x0A;
/// What a read of external RAM gives while it is disabled or absent.
pub const DISABLED_RAM_VALUE: u8 = 0x00;
/// What a cartridge read outside its ROM window gives.
pub const UNMAPPED_VALUE: u8 = 0xFF;

#[derive(Clone, Copy, Debug, PartialEq, Eq, Structural)]
pub enum CartridgeKind {
    RomOnly,
    Mbc1,
    Mbc2,
    Mbc3,
    Mbc5,
}

/// The abstract state of any cartridge. Fields that a kind has no use for
/// keep their initial values.
pub struct CartridgeState {
    pub kind: CartridgeKind,
    pub rom: Seq<u8>,
    pub ram: Seq<u8>,
    pub has_battery: bool,
    pub ram_enabled: bool,
    /// The ROM bank register, as far as the kind has one.
    pub rom_bank: u16,
    /// The RAM bank register (on the MBC1, the two upper bits).
    pub ram_bank: u8,
    /// MBC1: whether the two-bit register selects a RAM bank.
    pub ram_banking_mode: bool,
    /// MBC3: whether the RAM window shows a clock register.
    pub rtc_mode: bool,
    /// MBC3: the selected clock register, 0x08 to 0x0C.
    pub rtc_select: u8,
    pub rtc: Seq<u8>,
}

pub open spec fn cart_wf(s: CartridgeState) -> bool {
    &&& s.rom.len() >= MIN_ROM_LEN
    &&& s.rom.len() <= usize::MAX
    &&& s.ram.len() <= usize::MAX
    &&& s.rtc.len() == RTC_REGISTER_COUNT
    &&& 0x08 <= s.rtc_select <= 0x0C
    &&& s.rom_bank <= 0x1FF
    &&& s.ram_bank <= 0x0F
    &&& (s.kind == CartridgeKind::Mbc2 ==> s.ram.len() == MBC2_RAM_SIZE)
}

/// The ROM byte at an index, wrapped round the ROM's length.
pub open spec fn rom_at(rom: Seq<u8>, index: int) -> u8 {
    rom[index % rom.len() as int]
}

/// A read of the ROM window with the switchable half mapped to `bank`.
pub open spec fn rom_read(rom: Seq<u8>, bank: int, address: u16) -> u8 {
    if address < 0x4000 {
        rom_at(rom, address as int)
    } else if address < 0x8000 {
        rom_at(rom, bank * ROM_BANK_SIZE + (address - 0x4000))
    } else {
        UNMAPPED_VALUE
    }
}

/// The ROM bank that 0x4000-0x7FFF shows.
pub open spec fn effective_rom_bank(s: CartridgeState) -> int {
    match s.kind {
        CartridgeKind::RomOnly => 1,
        CartridgeKind::Mbc1 => if s.ram_banking_mode {
            s.rom_bank as int
        } else {
            s.ram_bank * 32 + s.rom_bank
        },
        _ => s.rom_bank as int,
    }
}

/// The RAM bank that 0xA000-0xBFFF shows.
pub open spec fn effective_ram_bank(s: CartridgeState) -> int {
    match s.kind {
        CartridgeKind::Mbc1 => if s.ram_banking_mode {
            s.ram_bank as int
        } else {
            0
        },
        CartridgeKind::Mbc3 | CartridgeKind::Mbc5 => s.ram_bank as int,
        _ => 0,
    }
}

/// Where an offset into the RAM window lands in the RAM bytes.
pub open spec fn ram_index(s: CartridgeState, offset: u16) -> int {
    (effective_ram_bank(s) * RAM_BANK_SIZE + offset) % s.ram.len() as int
}

pub open spec fn cart_read(s: CartridgeState, address: u16) -> u8 {
    rom_read(s.rom, effective_rom_bank(s), address)
}

pub open spec fn shows_rtc(s: CartridgeState) -> bool {
    s.kind == CartridgeKind::Mbc3 && s.rtc_mode
}

/// A read at an offset into the RAM window (0xA000 is offset 0).
pub open spec fn cart_read_ram(s: CartridgeState, offset: u16) -> u8 {
    if !s.ram_enabled {
        DISABLED_RAM_VALUE
    } else if shows_rtc(s) {
        s.rtc[s.rtc_select - 0x08]
    } else if s.ram.len() == 0 {
        DISABLED_RAM_VALUE
    } else if s.kind == CartridgeKind::Mbc2 {
        s.ram[ram_index(s, offset)] & 0x0F
    } else {
        s.ram[ram_index(s, offset)]
    }
}

pub open spec fn cart_write_ram(s: CartridgeState, offset: u16, value: u8) -> CartridgeState {
    if !s.ram_enabled {
        s
    } else if shows_rtc(s) {
        CartridgeState { rtc: s.rtc.update(s.rtc_select - 0x08, value), ..s }
    } else if s.ram.len() == 0 {
        s
    } else if s.kind == CartridgeKind::Mbc2 {
        CartridgeState { ram: s.ram.update(ram_index(s, offset), value & 0x0F), ..s }
    } else {
        CartridgeState { ram: s.ram.update(ram_index(s, offset), value), ..s }
    }
}

pub open spec fn enable_ram(s: CartridgeState, value: u8) -> CartridgeState {
    CartridgeState { ram_enabled: value == RAM_ENABLE_VALUE, ..s }
}

pub open spec fn mbc1_write(s: CartridgeState, address: u16, value: u8) -> CartridgeState {
    if address < 0x2000 {
        enable_ram(s, value)
    } else if address < 0x4000 {
        let low = value & 0x1F;
        CartridgeState { rom_bank: if low == 0 { 1 } else { low as u16 }, ..s }
    } else if address < 0x6000 {
        CartridgeState { ram_bank: value & 0x03, ..s }
    } else if address < 0x8000 {
        CartridgeState { ram_banking_mode: value & 0x01 == 1, ..s }
    } else {
        s
    }
}

pub open spec fn mbc2_write(s: CartridgeState, address: u16, value: u8) -> CartridgeState {
    if address < 0x4000 {
        if address & 0x0100 == 0 {
            enable_ram(s, value)
        } else {
            let low = value & 0x0F;
            CartridgeState { rom_bank: if low == 0 { 1 } else { low as u16 }, ..s }
        }
    } else {
        s
    }
}

pub open spec fn mbc3_write(s: CartridgeState, address: u16, value: u8) -> CartridgeState {
    if address < 0x2000 {
        enable_ram(s, value)
    } else if address < 0x4000 {
        CartridgeState { rom_bank: (value & 0x7F) as u16, ..s }
    } else if address < 0x6000 {
        if value <= 0x03 {
            CartridgeState { rtc_mode: false, ram_bank: value, ..s }
        } else if 0x08 <= value <= 0x0C {
            CartridgeState { rtc_mode: true, rtc_select: value, ..s }
        } else {
            s
        }
    } else if 0xA000 <= address < 0xC000 {
        cart_write_ram(s, (address - 0xA000) as u16, value)
    } else {
        s
    }
}

pub open spec fn mbc5_write(s: CartridgeState, address: u16, value: u8) -> CartridgeState {
    if address < 0x2000 {
        enable_ram(s, value)
    } else if address < 0x3000 {
        CartridgeState { rom_bank: ((s.rom_bank & 0x100) | (value as u16)) as u16, ..s }
    } else if address < 0x4000 {
        CartridgeState {
            rom_bank: ((s.rom_bank & 0xFF) | (((value & 0x01) as u16) << 8u16)) as u16,
            ..s
        }
    } else if address < 0x6000 {
        CartridgeState { ram_bank: value & 0x0F, ..s }
    } else {
        s
    }
}

/// A write into the ROM window (or, on the MBC3, the RAM window): it programs
/// the bank controller and never changes the ROM.
pub open spec fn cart_write(s: CartridgeState, address: u16, value: u8) -> CartridgeState {
    match s.kind {
        CartridgeKind::RomOnly => s,
        CartridgeKind::Mbc1 => mbc1_write(s, address, value),
        CartridgeKind::Mbc2 => mbc2_write(s, address, value),
        CartridgeKind::Mbc3 => mbc3_write(s, address, value),
        CartridgeKind::Mbc5 => mbc5_write(s, address, value),
    }
}

/// The RAM after saved bytes were loaded over it, as far as they reach.
pub open spec fn restored(s: CartridgeState, data: Seq<u8>) -> CartridgeState {
    CartridgeState {
        ram: overlay(s.ram, data),
        ..s
    }
}

/// Header type codes whose cartridge carries external RAM.
pub open spec fn has_ram_type(t: u8) -> bool {
    t == 0x02 || t == 0x03 || t == 0x08 || t == 0x09 || t == 0x12 || t == 0x13 || t == 0x1A
        || t == 0x1B || t == 0x1D || t == 0x1E
}

/// Header type codes whose cartridge keeps its RAM on a battery.
pub open spec fn has_battery_type(t: u8) -> bool {
    t == 0x03 || t == 0x06 || t == 0x09 || t == 0x13 || t == 0x1B || t == 0x1E
}

/// The state of a freshly inserted cartridge of a kind.
pub open spec fn initial_state(kind: CartridgeKind, rom: Seq<u8>) -> CartridgeState {
    let t = rom[CARTRIDGE_TYPE_ADDRESS as int];
    CartridgeState {
        kind,
        rom,
        ram: if kind == CartridgeKind::Mbc2 {
            zeroes(MBC2_RAM_SIZE as nat)
        } else {
            header_ram(rom, has_ram_type(t))
        },
        has_battery: has_battery_type(t),
        ram_enabled: kind == CartridgeKind::RomOnly,
        rom_bank: 1,
        ram_bank: 0,
        ram_banking_mode: false,
        rtc_mode: false,
        rtc_select: 0x08,
        rtc: zeroes(RTC_REGISTER_COUNT as nat),
    }
}

/// The capabilities that the memory bus uses of a cartridge.
pub trait Cartridge {
    spec fn state(&self) -> CartridgeState;

    fn read(&self, address: u16) -> (r: u8)
        requires
            cart_wf(self.state()),
        ensures
            r == cart_read(self.state(), address),
    ;

    fn write(&mut self, address: u16, value: u8)
        requires
            cart_wf(old(self).state()),
        ensures
            final(self).state() == cart_write(old(self).state(), address, value),
            cart_wf(final(self).state()),
    ;

    fn write_ram(&mut self, address: u16, value: u8)
        requires
            cart_wf(old(self).state()),
        ensures
            final(self).state() == cart_write_ram(old(self).state(), address, value),
            cart_wf(final(self).state()),
    ;

    fn read_ram(&self, address: u16) -> (r: u8)
        requires
            cart_wf(self.state()),
        ensures
            r == cart_read_ram(self.state(), address),
    ;

    /// The bytes to persist: a copy of the RAM where a battery keeps RAM,
    /// else nothing.
    fn savegame_data(&self) -> (r: Option<Vec<u8>>)
        requires
            cart_wf(self.state()),
        ensures
            match r {
                Some(data) => savegame_of(self.state().has_battery, self.state().ram) == Some(
                    data@,
                ),
                None => savegame_of(self.state().has_battery, self.state().ram) is None,
            },
    ;

    /// Hands `savegame_data` to the dumper, if there is any.
    fn dump_savegame<D: RamDumper>(&self, dumper: &D)
        requires
            cart_wf(self.state()),
    ;

    /// Loads saved RAM from the dumper, if it has any; does nothing without a battery.
    fn load_savegame<D: RamDumper>(&mut self, dumper: &D)
        requires
            cart_wf(old(self).state()),
        ensures
            cart_wf(final(self).state()),
            !old(self).state().has_battery ==> final(self).state() == old(self).state(),
            old(self).state().has_battery ==> exists|data: Seq<u8>|
                final(self).state() == restored(old(self).state(), data),
    ;
}

/// Where battery-backed RAM is kept between sessions.
pub trait RamDumper {
    fn dump(&self, data: &Vec<u8>);

    fn load(&self) -> Option<Vec<u8>>;
}

/// The RAM size that the header's size code names.
pub open spec fn ram_size_of(code: u8) -> Option<usize> {
    if code == 0x01 {
        Some(2048usize)
    } else if code == 0x02 {
        Some(8192)
    } else if code == 0x03 {
        Some(32768)
    } else if code == 0x04 {
        Some(131072)
    } else if code == 0x05 {
        Some(65536)
    } else {
        None
    }
}

pub fn get_ram_size(rom: &Vec<u8>) -> (r: Option<usize>)
    requires
        rom.len() > RAM_SIZE_ADDRESS,
    ensures
        r == ram_size_of(rom@[RAM_SIZE_ADDRESS as int]),
{
    match rom[RAM_SIZE_ADDRESS] {
        0x01 => Some(2 * 1024),
        0x02 => Some(8 * 1024),
        0x03 => Some(32 * 1024),
        0x04 => Some(128 * 1024),
        0x05 => Some(64 * 1024),
        _ => None,
    }
}

pub open spec fn zeroes(n: nat) -> Seq<u8> {
    Seq::new(n, |i: int| 0u8)
}

/// Zeroed RAM of the given size, if any.
pub fn create_ram(ram_size: Option<usize>) -> (r: Option<Vec<u8>>)
    ensures
        ram_size is None ==> r is None,
        ram_size matches Some(n) ==> (r matches Some(v) && v@ == zeroes(n as nat)),
{
    match ram_size {
        Some(size) => {
            let v = vec![0u8; size];
            assert(v@ =~= zeroes(size as nat));
            Some(v)
        },
        None => None,
    }
}

/// While external RAM is disabled, reads give the fixed value and writes
/// change nothing, whatever the kind and the address.
pub proof fn lemma_disabled_ram_inert(s: CartridgeState, offset: u16, value: u8)
    requires
        !s.ram_enabled,
    ensures
        cart_read_ram(s, offset) == DISABLED_RAM_VALUE,
        cart_write_ram(s, offset, value) == s,
{
}

/// On an MBC3 with RAM, after the enable write a byte written at 0xA000 reads
/// back; once RAM is disabled again the read gives the fixed value; and
/// selecting 0x0B as the bank shows a clock register instead of RAM.
pub proof fn lemma_mbc3_ram_window(s: CartridgeState, value: u8)
    requires
        cart_wf(s),
        s.kind == CartridgeKind::Mbc3,
        !s.rtc_mode,
        s.ram.len() > 0,
    ensures
        ({
            let enabled = cart_write(s, 0x0000, RAM_ENABLE_VALUE);
            let written = cart_write(enabled, 0xA000, value);
            &&& cart_read_ram(written, 0) == value
            &&& cart_read_ram(cart_write(written, 0x0000, 0x00), 0) == DISABLED_RAM_VALUE
            &&& cart_write(s, 0x4000, 0x0B).rtc_mode
            &&& cart_write(s, 0x4000, 0x0B).rtc_select == 0x0B
        }),
{
}

/// The kind of cartridge that a header type code names, if any.
pub open spec fn kind_of_type(t: u8) -> Option<CartridgeKind> {
    if t == 0x00 || t == 0x08 || t == 0x09 {
        Some(CartridgeKind::RomOnly)
    } else if 0x01 <= t <= 0x03 {
        Some(CartridgeKind::Mbc1)
    } else if t == 0x05 || t == 0x06 {
        Some(CartridgeKind::Mbc2)
    } else if t == 0x12 || t == 0x13 {
        Some(CartridgeKind::Mbc3)
    } else if 0x19 <= t <= 0x1E {
        Some(CartridgeKind::Mbc5)
    } else {
        None
    }
}

/// Why a ROM image cannot be made into a cartridge.
#[derive(Clone, Copy, Debug, PartialEq, Eq, Structural)]
pub enum CartridgeError {
    /// The image is shorter than its header; carries its length.
    RomTooShort(usize),
    /// The header's type code names no supported controller.
    UnknownType(u8),
}

/// A cartridge of any of the supported kinds.
pub enum AnyCartridge {
    RomOnly(RomOnlyCartridge),
    Mbc1(Mbc1),
    Mbc2(Mbc2),
    Mbc3(Mbc3),
    Mbc5(Mbc5),
}

impl Cartridge for AnyCartridge {
    closed spec fn state(&self) -> CartridgeState {
        match self {
            AnyCartridge::RomOnly(c) => c.state(),
            AnyCartridge::Mbc1(c) => c.state(),
            AnyCartridge::Mbc2(c) => c.state(),
            AnyCartridge::Mbc3(c) => c.state(),
            AnyCartridge::Mbc5(c) => c.state(),
        }
    }

    fn read(&self, address: u16) -> (r: u8) {
        match self {
            AnyCartridge::RomOnly(c) => c.read(address),
            AnyCartridge::Mbc1(c) => c.read(address),
            AnyCartridge::Mbc2(c) => c.read(address),
            AnyCartridge::Mbc3(c) => c.read(address),
            AnyCartridge::Mbc5(c) => c.read(address),
        }
    }

    fn write(&mut self, address: u16, value: u8) {
        match self {
            AnyCartridge::RomOnly(c) => c.write(address, value),
            AnyCartridge::Mbc1(c) => c.write(address, value),
            AnyCartridge::Mbc2(c) => c.write(address, value),
            AnyCartridge::Mbc3(c) => c.write(address, value),
            AnyCartridge::Mbc5(c) => c.write(address, value),
        }
    }

    fn write_ram(&mut self, address: u16, value: u8) {
        match self {
            AnyCartridge::RomOnly(c) => c.write_ram(address, value),
            AnyCartridge::Mbc1(c) => c.write_ram(address, value),
            AnyCartridge::Mbc2(c) => c.write_ram(address, value),
            AnyCartridge::Mbc3(c) => c.write_ram(address, value),
            AnyCartridge::Mbc5(c) => c.write_ram(address, value),
        }
    }

    fn read_ram(&self, address: u16) -> (r: u8) {
        match self {
            AnyCartridge::RomOnly(c) => c.read_ram(address),
            AnyCartridge::Mbc1(c) => c.read_ram(address),
            AnyCartridge::Mbc2(c) => c.read_ram(address),
            AnyCartridge::Mbc3(c) => c.read_ram(address),
            AnyCartridge::Mbc5(c) => c.read_ram(address),
        }
    }

    fn savegame_data(&self) -> (r: Option<Vec<u8>>) {
        match self {
            AnyCartridge::RomOnly(c) => c.savegame_data(),
            AnyCartridge::Mbc1(c) => c.savegame_data(),
            AnyCartridge::Mbc2(c) => c.savegame_data(),
            AnyCartridge::Mbc3(c) => c.savegame_data(),
            AnyCartridge::Mbc5(c) => c.savegame_data(),
        }
    }

    fn dump_savegame<D: RamDumper>(&self, dumper: &D) {
        match self {
            AnyCartridge::RomOnly(c) => c.dump_savegame(dumper),
            AnyCartridge::Mbc1(c) => c.dump_savegame(dumper),
            AnyCartridge::Mbc2(c) => c.dump_savegame(dumper),
            AnyCartridge::Mbc3(c) => c.dump_savegame(dumper),
            AnyCartridge::Mbc5(c) => c.dump_savegame(dumper),
        }
    }

    fn load_savegame<D: RamDumper>(&mut self, dumper: &D) {
        match self {
            AnyCartridge::RomOnly(c) => c.load_savegame(dumper),
            AnyCartridge::Mbc1(c) => c.load_savegame(dumper),
            AnyCartridge::Mbc2(c) => c.load_savegame(dumper),
            AnyCartridge::Mbc3(c) => c.load_savegame(dumper),
            AnyCartridge::Mbc5(c) => c.load_savegame(dumper),
        }
    }
}

/// Builds the cartridge that the header's type code at 0x147 names.
pub fn new_cartridge(rom: Vec<u8>) -> (r: Result<AnyCartridge, CartridgeError>)
    ensures
        rom.len() < MIN_ROM_LEN ==> r == Err::<AnyCartridge, CartridgeError>(
            CartridgeError::RomTooShort(rom.len()),
        ),
        rom.len() >= MIN_ROM_LEN ==> match kind_of_type(rom@[CARTRIDGE_TYPE_ADDRESS as int]) {
            None => r == Err::<AnyCartridge, CartridgeError>(
                CartridgeError::UnknownType(rom@[CARTRIDGE_TYPE_ADDRESS as int]),
            ),
            Some(kind) => r matches Ok(c) && c.state() == initial_state(kind, rom@) && cart_wf(
                c.state(),
            ),
        },
{
    if rom.len() < MIN_ROM_LEN {
        return Err(CartridgeError::RomTooShort(rom.len()));
    }
    let cartridge_type = rom[CARTRIDGE_TYPE_ADDRESS];
    match cartridge_type {
        0x00 | 0x08..=0x09 => Ok(AnyCartridge::RomOnly(RomOnlyCartridge::new(rom))),
        0x01..=0x03 => Ok(AnyCartridge::Mbc1(Mbc1::new(rom))),
        0x05..=0x06 => Ok(AnyCartridge::Mbc2(Mbc2::new(rom))),
        0x12..=0x13 => Ok(AnyCartridge::Mbc3(Mbc3::new(rom))),
        0x19..=0x1E => Ok(AnyCartridge::Mbc5(Mbc5::new(rom))),
        _ => Err(CartridgeError::UnknownType(cartridge_type)),
    }
}

} // verus!
