//! The memory bus: the 64 KiB address map and the interrupt registers.
use vstd::prelude::*;
use crate::cartridge::{
    cart_read, cart_read_ram, cart_wf, cart_write, cart_write_ram, initial_state, kind_of_type,
    new_cartridge, restored, zeroes, AnyCartridge, Cartridge, CARTRIDGE_TYPE_ADDRESS,
    CartridgeError,
    CartridgeState, MIN_ROM_LEN, RamDumper, UNMAPPED_VALUE,
};

verus! {

/// The boot image overlays the cartridge below this address.
pub const BOOT_ROM_END: u16 = 0x0100;
pub const INTERRUPT_FLAG_ADDRESS: u16 = 0xFF0F;
pub const INTERRUPT_ENABLE_ADDRESS: u16 = 0xFFFF;
/// A write here unmaps the boot image for good.
pub const BOOT_DISABLE_ADDRESS: u16 = 0xFF50;
/// The bus itself backs every address from here up that the cartridge does not.
pub const MEMORY_BASE: u16 = 0x8000;
pub const MEMORY_SIZE: usize = 0x8000;

pub const VBLANK_BIT: u8 = 0x01;
pub const LCDSTAT_BIT: u8 = 0x02;
pub const TIMER_BIT: u8 = 0x04;
/// The interrupt lines this core services.
pub const SERVICED_LINES: u8 = 0x07;
/// The interrupt lines a collaborator may request.
pub const REQUESTABLE_LINES: u8 = 0x1F;

/// The abstract state of the bus.
pub struct BusState {
    pub cart: CartridgeState,
    pub boot: Seq<u8>,
    pub boot_active: bool,
    /// The bytes behind 0x8000-0xFFFF, indexed from 0x8000.
    pub memory: Seq<u8>,
    pub cycles: u64,
}

pub open spec fn bus_wf(b: BusState) -> bool {
    &&& cart_wf(b.cart)
    &&& b.memory.len() == MEMORY_SIZE
}

pub open spec fn in_cart_ram(a: u16) -> bool {
    0xA000 <= a < 0xC000
}

/// 0xE000-0xFDFF mirrors working RAM at 0xC000-0xDDFF.
pub open spec fn in_echo(a: u16) -> bool {
    0xE000 <= a < 0xFE00
}

pub open spec fn in_unusable(a: u16) -> bool {
    0xFEA0 <= a < 0xFF00
}

/// Where in the bus's own bytes an address lands (echo addresses included).
pub open spec fn memory_index(a: u16) -> int {
    if in_echo(a) {
        a - 0x2000 - MEMORY_BASE
    } else {
        a - MEMORY_BASE
    }
}

pub open spec fn bus_read(b: BusState, a: u16) -> u8 {
    if a < BOOT_ROM_END && b.boot_active && (a as int) < b.boot.len() {
        b.boot[a as int]
    } else if a < MEMORY_BASE {
        cart_read(b.cart, a)
    } else if in_cart_ram(a) {
        cart_read_ram(b.cart, (a - 0xA000) as u16)
    } else if in_unusable(a) {
        UNMAPPED_VALUE
    } else {
        b.memory[memory_index(a)]
    }
}

pub open spec fn bus_write(b: BusState, a: u16, v: u8) -> BusState {
    if a < MEMORY_BASE {
        BusState { cart: cart_write(b.cart, a, v), ..b }
    } else if in_cart_ram(a) {
        BusState { cart: cart_write_ram(b.cart, (a - 0xA000) as u16, v), ..b }
    } else if in_unusable(a) {
        b
    } else if a == BOOT_DISABLE_ADDRESS {
        BusState { memory: b.memory.update(memory_index(a), v), boot_active: false, ..b }
    } else {
        BusState { memory: b.memory.update(memory_index(a), v), ..b }
    }
}

pub open spec fn interrupt_flag(b: BusState) -> u8 {
    b.memory[INTERRUPT_FLAG_ADDRESS - MEMORY_BASE]
}

pub open spec fn interrupt_enable(b: BusState) -> u8 {
    b.memory[INTERRUPT_ENABLE_ADDRESS - MEMORY_BASE]
}

/// The serviced lines that are both requested and enabled.
pub open spec fn pending_lines(b: BusState) -> u8 {
    interrupt_flag(b) & interrupt_enable(b) & SERVICED_LINES
}

pub open spec fn with_flag(b: BusState, flag: u8) -> BusState {
    BusState { memory: b.memory.update(INTERRUPT_FLAG_ADDRESS - MEMORY_BASE, flag), ..b }
}

pub open spec fn wrapped_cycles(c: u64, n: u32) -> u64 {
    ((c + n) % 0x1_0000_0000_0000_0000) as u64
}

pub open spec fn initial_bus(boot: Option<Seq<u8>>, rom: Seq<u8>) -> BusState {
    BusState {
        cart: initial_state(kind_of_type(rom[CARTRIDGE_TYPE_ADDRESS as int]).unwrap(), rom),
        boot: match boot {
            Some(image) => image,
            None => Seq::empty(),
        },
        boot_active: boot is Some,
        memory: zeroes(MEMORY_SIZE as nat),
        cycles: 0,
    }
}

/// Whether a ROM image can be made into a cartridge.
pub open spec fn rom_accepted(rom: Seq<u8>) -> bool {
    rom.len() >= MIN_ROM_LEN && kind_of_type(rom[CARTRIDGE_TYPE_ADDRESS as int]) is Some
}

pub struct MemoryBus {
    boot_rom: Vec<u8>,
    boot_active: bool,
    cartridge: AnyCartridge,
    memory: Vec<u8>,
    cycles: u64,
}

impl View for MemoryBus {
    type V = BusState;

    closed spec fn view(&self) -> BusState {
        BusState {
            cart: self.cartridge.state(),
            boot: self.boot_rom@,
            boot_active: self.boot_active,
            memory: self.memory@,
            cycles: self.cycles,
        }
    }
}

impl MemoryBus {
    /// A bus over the cartridge made from `game_rom`, with the boot image
    /// mapped if one is given; fails where the cartridge cannot be made.
    pub fn new(boot_rom: Option<Vec<u8>>, game_rom: Vec<u8>) -> (r: Result<
        MemoryBus,
        CartridgeError,
    >)
        ensures
            match new_cartridge_result(game_rom@) {
                Err(e) => r == Err::<MemoryBus, CartridgeError>(e),
                Ok(_) => r matches Ok(bus) && bus@ == initial_bus(
                    match boot_rom {
                        Some(v) => Some(v@),
                        None => None,
                    },
                    game_rom@,
                ) && bus_wf(bus@),
            },
    {
        let ghost rom = game_rom@;
        let cartridge = match new_cartridge(game_rom) {
            Ok(c) => c,
            Err(e) => {
                return Err(e);
            },
        };
        let (boot, boot_active) = match boot_rom {
            Some(image) => (image, true),
            None => (Vec::new(), false),
        };
        let memory = vec![0u8; MEMORY_SIZE];
        assert(memory@ =~= zeroes(MEMORY_SIZE as nat));
        let bus = MemoryBus { boot_rom: boot, boot_active, cartridge, memory, cycles: 0 };
        assert(bus@.boot =~= initial_bus(
            match boot_rom {
                Some(v) => Some(v@),
                None => None,
            },
            rom,
        ).boot);
        Ok(bus)
    }

    pub fn read_byte(&self, address: u16) -> (r: u8)
        requires
            bus_wf(self@),
        ensures
            r == bus_read(self@, address),
    {
        if address < BOOT_ROM_END && self.boot_active && (address as usize) < self.boot_rom.len() {
            self.boot_rom[address as usize]
        } else if address < MEMORY_BASE {
            self.cartridge.read(address)
        } else if 0xA000 <= address && address < 0xC000 {
            self.cartridge.read_ram(address - 0xA000)
        } else if 0xFEA0 <= address && address < 0xFF00 {
            UNMAPPED_VALUE
        } else if 0xE000 <= address && address < 0xFE00 {
            self.memory[(address - 0x2000 - MEMORY_BASE) as usize]
        } else {
            self.memory[(address - MEMORY_BASE) as usize]
        }
    }

    pub fn write_byte(&mut self, address: u16, value: u8)
        requires
            bus_wf(old(self)@),
        ensures
            final(self)@ == bus_write(old(self)@, address, value),
            bus_wf(final(self)@),
    {
        if address < MEMORY_BASE {
            self.cartridge.write(address, value);
        } else if 0xA000 <= address && address < 0xC000 {
            self.cartridge.write_ram(address - 0xA000, value);
        } else if 0xFEA0 <= address && address < 0xFF00 {
        } else if 0xE000 <= address && address < 0xFE00 {
            self.memory.set((address - 0x2000 - MEMORY_BASE) as usize, value);
        } else {
            if address == BOOT_DISABLE_ADDRESS {
                self.boot_active = false;
            }
            self.memory.set((address - MEMORY_BASE) as usize, value);
        }
    }

    /// Counts the cycles that the engine spent; the hardware that raises
    /// interrupts is driven from outside and reports through `request_interrupts`.
    pub fn step(&mut self, cycles: u32)
        ensures
            final(self)@ == (BusState {
                cycles: wrapped_cycles(old(self)@.cycles, cycles),
                ..old(self)@
            }),
    {
        self.cycles = self.cycles.wrapping_add(cycles as u64);
    }

    /// ORs the requested lines into the interrupt-flag register.
    pub fn request_interrupts(&mut self, lines: u8)
        requires
            bus_wf(old(self)@),
        ensures
            final(self)@ == with_flag(
                old(self)@,
                interrupt_flag(old(self)@) | (lines & REQUESTABLE_LINES),
            ),
            bus_wf(final(self)@),
    {
        let index = (INTERRUPT_FLAG_ADDRESS - MEMORY_BASE) as usize;
        let flag = self.memory[index];
        self.memory.set(index, flag | (lines & REQUESTABLE_LINES));
    }

    /// Clears one line's bit in the interrupt-flag register.
    pub fn clear_interrupt(&mut self, line: u8)
        requires
            bus_wf(old(self)@),
        ensures
            final(self)@ == with_flag(old(self)@, interrupt_flag(old(self)@) & !line),
            bus_wf(final(self)@),
    {
        let index = (INTERRUPT_FLAG_ADDRESS - MEMORY_BASE) as usize;
        let flag = self.memory[index];
        self.memory.set(index, flag & !line);
    }

    /// The serviced lines that are both requested and enabled.
    pub fn pending_interrupts(&self) -> (r: u8)
        requires
            bus_wf(self@),
        ensures
            r == pending_lines(self@),
    {
        self.memory[(INTERRUPT_FLAG_ADDRESS - MEMORY_BASE) as usize] & self.memory[(
        INTERRUPT_ENABLE_ADDRESS - MEMORY_BASE) as usize] & SERVICED_LINES
    }

    /// Whether any serviced line is both requested and enabled.
    pub fn has_interrupt(&self) -> (r: bool)
        requires
            bus_wf(self@),
        ensures
            r == (pending_lines(self@) != 0),
    {
        self.pending_interrupts() != 0
    }

    /// Hands battery-backed cartridge RAM to the dumper.
    pub fn save<D: RamDumper>(&self, dumper: &D)
        requires
            bus_wf(self@),
    {
        self.cartridge.dump_savegame(dumper);
    }

    /// Loads saved cartridge RAM from the dumper.
    pub fn load<D: RamDumper>(&mut self, dumper: &D)
        requires
            bus_wf(old(self)@),
        ensures
            bus_wf(final(self)@),
            !old(self)@.cart.has_battery ==> final(self)@ == old(self)@,
            old(self)@.cart.has_battery ==> exists|data: Seq<u8>|
                final(self)@ == (BusState {
                    cart: #[trigger] restored(old(self)@.cart, data),
                    ..old(self)@
                }),
    {
        self.cartridge.load_savegame(dumper);
    }
}

/// What the cartridge factory does with a ROM image, as far as the bus needs it.
pub open spec fn new_cartridge_result(rom: Seq<u8>) -> Result<(), CartridgeError> {
    if rom.len() < MIN_ROM_LEN {
        Err(CartridgeError::RomTooShort(rom.len() as usize))
    } else if kind_of_type(rom[CARTRIDGE_TYPE_ADDRESS as int]) is None {
        Err(CartridgeError::UnknownType(rom[CARTRIDGE_TYPE_ADDRESS as int]))
    } else {
        Ok(())
    }
}

} // verus!
