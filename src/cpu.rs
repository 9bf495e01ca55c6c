//! The CPU engine: fetch, decode, execute, then service one interrupt.
use vstd::prelude::*;
use crate::bus::{
    bus_read, bus_wf, bus_write, initial_bus, interrupt_enable, interrupt_flag,
    new_cartridge_result, pending_lines, with_flag, wrapped_cycles, BusState,
    INTERRUPT_FLAG_ADDRESS, LCDSTAT_BIT, MemoryBus, TIMER_BIT, VBLANK_BIT,
};
use crate::cartridge::CartridgeError;
use crate::instruction::{decode_result, ArithmeticTarget, DecodeFailure, Instruction, PREFIX_BYTE};
use crate::registers::{high_byte, low_byte, pair_value, FlagsRegister, Registers};

verus! {

pub const VBLANK_VECTOR: u16 = 0x40;
pub const LCDSTAT_VECTOR: u16 = 0x48;
pub const TIMER_VECTOR: u16 = 0x50;
/// Extra cycles of a step that serviced an interrupt.
pub const INTERRUPT_CYCLES: u32 = 12;
/// Where execution starts when no boot image runs first.
pub const CARTRIDGE_ENTRY: u16 = 0x0100;
pub const INITIAL_STACK_POINTER: u16 = 0xFFFE;

/// The abstract state of the engine.
pub struct CpuState {
    pub registers: Registers,
    pub pc: u16,
    pub sp: u16,
    pub halted: bool,
    pub ime: bool,
    pub bus: BusState,
}

/// An address `n` bytes on from `a`, wrapping round the address space.
pub open spec fn offset_addr(a: u16, n: int) -> u16 {
    ((a + n) % 0x10000) as u16
}

/// The opcode at the program counter, and whether it came after the prefix byte.
pub open spec fn fetched(s: CpuState) -> (u8, bool) {
    let first = bus_read(s.bus, s.pc);
    if first == PREFIX_BYTE {
        (bus_read(s.bus, offset_addr(s.pc, 1)), true)
    } else {
        (first, false)
    }
}

/// What ADD of `v` to accumulator `a` leaves in the accumulator and the flags.
pub open spec fn add_spec(a: u8, v: u8) -> (u8, FlagsRegister) {
    let sum = ((a + v) % 256) as u8;
    (
        sum,
        FlagsRegister {
            zero: sum == 0,
            subtract: false,
            half_carry: (a & 0xF) + (v & 0xF) > 0xF,
            carry: a + v > 255,
        },
    )
}

pub open spec fn operand(s: CpuState, t: ArithmeticTarget) -> u8 {
    match t {
        ArithmeticTarget::A => s.registers.a,
        ArithmeticTarget::B => s.registers.b,
        ArithmeticTarget::C => s.registers.c,
        ArithmeticTarget::D => s.registers.d,
        ArithmeticTarget::E => s.registers.e,
        ArithmeticTarget::H => s.registers.h,
        ArithmeticTarget::L => s.registers.l,
        ArithmeticTarget::HLI => bus_read(s.bus, pair_value(s.registers.h, s.registers.l)),
        ArithmeticTarget::D8 => bus_read(s.bus, offset_addr(s.pc, 1)),
    }
}

/// Bytes of an instruction, opcode included.
pub open spec fn instruction_length(i: Instruction) -> int {
    match i {
        Instruction::ADD(ArithmeticTarget::D8) => 2,
        _ => 1,
    }
}

pub open spec fn instruction_cycles(i: Instruction) -> u32 {
    match i {
        Instruction::ADD(ArithmeticTarget::HLI) => 8,
        Instruction::ADD(ArithmeticTarget::D8) => 8,
        _ => 4,
    }
}

/// The state after an instruction ran, before the program counter moves.
pub open spec fn executed(s: CpuState, i: Instruction) -> CpuState {
    match i {
        Instruction::ADD(t) => {
            let (a, f) = add_spec(s.registers.a, operand(s, t));
            CpuState { registers: Registers { a, f, ..s.registers }, ..s }
        },
        Instruction::NOP => s,
        Instruction::HALT => CpuState { halted: true, ..s },
        Instruction::DI => CpuState { ime: false, ..s },
        Instruction::EI => CpuState { ime: true, ..s },
    }
}

/// The state after an instruction ran, the bus counted its cycles and the
/// program counter moved on unless the engine is halted.
pub open spec fn advanced(s: CpuState, i: Instruction) -> CpuState {
    let e = executed(s, i);
    let bus = BusState { cycles: wrapped_cycles(e.bus.cycles, instruction_cycles(i)), ..e.bus };
    let halted = e.halted && pending_lines(bus) == 0;
    CpuState {
        bus,
        halted,
        pc: if halted { s.pc } else { offset_addr(s.pc, instruction_length(i)) },
        ..e
    }
}

/// The highest-priority pending line: its flag bit and its vector.
pub open spec fn first_pending(b: BusState) -> Option<(u8, u16)> {
    let p = pending_lines(b);
    if p & VBLANK_BIT != 0 {
        Some((VBLANK_BIT, VBLANK_VECTOR))
    } else if p & LCDSTAT_BIT != 0 {
        Some((LCDSTAT_BIT, LCDSTAT_VECTOR))
    } else if p & TIMER_BIT != 0 {
        Some((TIMER_BIT, TIMER_VECTOR))
    } else {
        None
    }
}

/// The state after the program counter was pushed and execution moved to `vector`.
pub open spec fn jumped(s: CpuState, vector: u16) -> CpuState {
    let high_at = offset_addr(s.sp, -1);
    let low_at = offset_addr(s.sp, -2);
    let bus = bus_write(bus_write(s.bus, high_at, high_byte(s.pc)), low_at, low_byte(s.pc));
    CpuState { bus, sp: low_at, pc: vector, ..s }
}

/// The state after at most one interrupt was serviced, and whether one was.
pub open spec fn serviced(s: CpuState) -> (CpuState, bool) {
    if !s.ime {
        (s, false)
    } else {
        match first_pending(s.bus) {
            None => (s, false),
            Some((line, vector)) => {
                let cleared = CpuState {
                    bus: with_flag(s.bus, interrupt_flag(s.bus) & !line),
                    ime: false,
                    ..s
                };
                (jumped(cleared, vector), true)
            },
        }
    }
}

/// ADD wraps modulo 256 and sets zero, half-carry and carry from the operands,
/// and always clears subtract.
pub proof fn lemma_add_flags(a: u8, v: u8)
    ensures
        add_spec(a, v).0 == (a + v) % 256,
        add_spec(a, v).1.zero == ((a + v) % 256 == 0),
        add_spec(a, v).1.carry == ((a as u16) + (v as u16) > 255),
        add_spec(a, v).1.half_carry == ((a & 0xF) + (v & 0xF) > 0xF),
        !add_spec(a, v).1.subtract,
{
}

/// With interrupts enabled and both V-blank and Timer requested and enabled,
/// servicing takes V-blank alone: it jumps to the V-blank vector, clears the
/// V-blank flag, leaves Timer requested, and counts as a serviced interrupt.
/// (The two stack bytes must not land on the interrupt-flag register.)
pub proof fn lemma_vblank_first(s: CpuState)
    requires
        bus_wf(s.bus),
        s.ime,
        interrupt_flag(s.bus) & VBLANK_BIT != 0,
        interrupt_enable(s.bus) & VBLANK_BIT != 0,
        interrupt_flag(s.bus) & TIMER_BIT != 0,
        interrupt_enable(s.bus) & TIMER_BIT != 0,
        offset_addr(s.sp, -1) != INTERRUPT_FLAG_ADDRESS,
        offset_addr(s.sp, -2) != INTERRUPT_FLAG_ADDRESS,
    ensures
        ({
            let (after, interrupted) = serviced(s);
            &&& interrupted
            &&& after.pc == VBLANK_VECTOR
            &&& !after.ime
            &&& interrupt_flag(after.bus) & VBLANK_BIT == 0
            &&& interrupt_flag(after.bus) & TIMER_BIT != 0
        }),
{
    let f = interrupt_flag(s.bus);
    let e = interrupt_enable(s.bus);
    assert((f & e & 0x07u8) & 0x01u8 != 0) by (bit_vector)
        requires
            f & 0x01u8 != 0,
            e & 0x01u8 != 0,
    ;
    assert((f & !0x01u8) & 0x01u8 == 0 && (f & !0x01u8) & 0x04u8 != 0) by (bit_vector)
        requires
            f & 0x04u8 != 0,
    ;
    let cleared = with_flag(s.bus, f & !VBLANK_BIT);
    let high_at = offset_addr(s.sp, -1);
    let low_at = offset_addr(s.sp, -2);
    let b1 = bus_write(cleared, high_at, high_byte(s.pc));
    assert(interrupt_flag(b1) == f & !VBLANK_BIT);
    let b2 = bus_write(b1, low_at, low_byte(s.pc));
    assert(interrupt_flag(b2) == f & !VBLANK_BIT);
}

/// A step that could not decode its opcode.
#[derive(Clone, Copy, Debug, PartialEq, Eq, Structural)]
pub struct StepFailure {
    pub failure: DecodeFailure,
    pub program_counter: u16,
}

pub struct CPU {
    registers: Registers,
    program_counter: u16,
    stack_pointer: u16,
    pub bus: MemoryBus,
    is_halted: bool,
    interrupts_enabled: bool,
}

impl View for CPU {
    type V = CpuState;

    closed spec fn view(&self) -> CpuState {
        CpuState {
            registers: self.registers,
            pc: self.program_counter,
            sp: self.stack_pointer,
            halted: self.is_halted,
            ime: self.interrupts_enabled,
            bus: self.bus@,
        }
    }
}

impl CPU {
    /// An engine over a fresh bus; it starts in the boot image if one is
    /// given, else at the cartridge's entry point.
    pub fn new(boot_rom: Option<Vec<u8>>, game_rom: Vec<u8>) -> (r: Result<CPU, CartridgeError>)
        ensures
            match new_cartridge_result(game_rom@) {
                Err(e) => r == Err::<CPU, CartridgeError>(e),
                Ok(_) => r matches Ok(cpu) && cpu@ == (CpuState {
                    registers: Registers::spec_new(),
                    pc: if boot_rom is Some {
                        0
                    } else {
                        CARTRIDGE_ENTRY
                    },
                    sp: INITIAL_STACK_POINTER,
                    halted: false,
                    ime: false,
                    bus: initial_bus(
                        match boot_rom {
                            Some(v) => Some(v@),
                            None => None,
                        },
                        game_rom@,
                    ),
                }) && bus_wf(cpu@.bus),
            },
    {
        let program_counter = if boot_rom.is_some() {
            0
        } else {
            CARTRIDGE_ENTRY
        };
        let bus = match MemoryBus::new(boot_rom, game_rom) {
            Ok(bus) => bus,
            Err(e) => {
                return Err(e);
            },
        };
        Ok(
            CPU {
                registers: Registers::new(),
                program_counter,
                stack_pointer: INITIAL_STACK_POINTER,
                bus,
                is_halted: false,
                interrupts_enabled: false,
            },
        )
    }

    /// Runs one instruction and services at most one interrupt; returns the
    /// cycles spent, or the opcode that has no instruction, with nothing changed.
    pub fn step(&mut self) -> (r: Result<u32, StepFailure>)
        requires
            bus_wf(old(self)@.bus),
        ensures
            bus_wf(final(self)@.bus),
            ({
                let (opcode, prefixed) = fetched(old(self)@);
                match decode_result(opcode, prefixed) {
                    Err(failure) => r == Err::<u32, StepFailure>(
                        StepFailure { failure, program_counter: old(self)@.pc },
                    ) && final(self)@ == old(self)@,
                    Ok(i) => {
                        let (after, interrupted) = serviced(advanced(old(self)@, i));
                        &&& final(self)@ == after
                        &&& r == Ok::<u32, StepFailure>(
                            (instruction_cycles(i) + if interrupted {
                                INTERRUPT_CYCLES
                            } else {
                                0
                            }) as u32,
                        )
                    },
                }
            }),
    {
        let mut instruction_byte = self.bus.read_byte(self.program_counter);
        let prefixed = instruction_byte == PREFIX_BYTE;
        if prefixed {
            instruction_byte = self.bus.read_byte(self.program_counter.wrapping_add(1));
        }
        let instruction = match Instruction::from_byte(instruction_byte, prefixed) {
            Ok(instruction) => instruction,
            Err(failure) => {
                return Err(StepFailure { failure, program_counter: self.program_counter });
            },
        };
        let ghost start = self@;
        let (next_pc, mut cycles) = self.execute(instruction);
        self.bus.step(cycles);
        if self.bus.has_interrupt() {
            self.is_halted = false;
        }
        if !self.is_halted {
            self.program_counter = next_pc;
        }
        assert(self@ == advanced(start, instruction));
        if self.service_interrupt() {
            cycles += INTERRUPT_CYCLES;
        }
        Ok(cycles)
    }

    /// ADD to the accumulator: returns the wrapped sum and sets the flags; the
    /// accumulator itself is left for the caller to replace.
    pub fn add(&mut self, value: u8) -> (r: u8)
        ensures
            (r, final(self)@.registers.f) == add_spec(old(self)@.registers.a, value),
            r == (old(self)@.registers.a + value) % 256,
            final(self)@.registers.f.zero == ((old(self)@.registers.a + value) % 256 == 0),
            final(self)@.registers.f.carry == ((old(self)@.registers.a as u16) + (value as u16)
                > 255),
            final(self)@.registers.f.half_carry == ((old(self)@.registers.a & 0xF) + (value
                & 0xF) > 0xF),
            !final(self)@.registers.f.subtract,
            final(self)@ == (CpuState {
                registers: Registers { f: final(self)@.registers.f, ..old(self)@.registers },
                ..old(self)@
            }),
    {
        let a = self.registers.a;
        let result = a.wrapping_add(value);
        assert(a & 0xF <= 0xF && value & 0xF <= 0xF) by (bit_vector);
        self.registers.f.zero = result == 0;
        self.registers.f.subtract = false;
        self.registers.f.half_carry = (a & 0xF) + (value & 0xF) > 0xF;
        self.registers.f.carry = (a as u16) + (value as u16) > 255;
        proof {
            lemma_add_flags(a, value);
        }
        result
    }

    /// Runs an instruction; returns where the program counter goes next and
    /// the cycles it took.
    fn execute(&mut self, instruction: Instruction) -> (r: (u16, u32))
        requires
            bus_wf(old(self)@.bus),
        ensures
            final(self)@ == executed(old(self)@, instruction),
            r.0 == offset_addr(old(self)@.pc, instruction_length(instruction)),
            r.1 == instruction_cycles(instruction),
    {
        let pc = self.program_counter;
        match instruction {
            Instruction::ADD(target) => {
                let value = match target {
                    ArithmeticTarget::A => self.registers.a,
                    ArithmeticTarget::B => self.registers.b,
                    ArithmeticTarget::C => self.registers.c,
                    ArithmeticTarget::D => self.registers.d,
                    ArithmeticTarget::E => self.registers.e,
                    ArithmeticTarget::H => self.registers.h,
                    ArithmeticTarget::L => self.registers.l,
                    ArithmeticTarget::HLI => self.bus.read_byte(self.registers.get_hl()),
                    ArithmeticTarget::D8 => self.bus.read_byte(pc.wrapping_add(1)),
                };
                let new_value = self.add(value);
                self.registers.a = new_value;
                match target {
                    ArithmeticTarget::HLI => (pc.wrapping_add(1), 8),
                    ArithmeticTarget::D8 => (pc.wrapping_add(2), 8),
                    _ => (pc.wrapping_add(1), 4),
                }
            },
            Instruction::NOP => (pc.wrapping_add(1), 4),
            Instruction::HALT => {
                self.is_halted = true;
                (pc.wrapping_add(1), 4)
            },
            Instruction::DI => {
                self.interrupts_enabled = false;
                (pc.wrapping_add(1), 4)
            },
            Instruction::EI => {
                self.interrupts_enabled = true;
                (pc.wrapping_add(1), 4)
            },
        }
    }

    /// Services the highest-priority pending line, if interrupts are enabled.
    fn service_interrupt(&mut self) -> (r: bool)
        requires
            bus_wf(old(self)@.bus),
        ensures
            (final(self)@, r) == serviced(old(self)@),
            bus_wf(final(self)@.bus),
    {
        if !self.interrupts_enabled {
            return false;
        }
        let pending = self.bus.pending_interrupts();
        if pending & VBLANK_BIT != 0 {
            self.interrupt(VBLANK_BIT, VBLANK_VECTOR);
            true
        } else if pending & LCDSTAT_BIT != 0 {
            self.interrupt(LCDSTAT_BIT, LCDSTAT_VECTOR);
            true
        } else if pending & TIMER_BIT != 0 {
            self.interrupt(TIMER_BIT, TIMER_VECTOR);
            true
        } else {
            false
        }
    }

    /// Clears the line's flag, disables interrupts, pushes the program
    /// counter and jumps to the vector.
    fn interrupt(&mut self, line: u8, vector: u16)
        requires
            bus_wf(old(self)@.bus),
        ensures
            final(self)@ == jumped(
                CpuState {
                    bus: with_flag(old(self)@.bus, interrupt_flag(old(self)@.bus) & !line),
                    ime: false,
                    ..old(self)@
                },
                vector,
            ),
            bus_wf(final(self)@.bus),
    {
        self.bus.clear_interrupt(line);
        self.interrupts_enabled = false;
        let pc = self.program_counter;
        let high_at = self.stack_pointer.wrapping_sub(1);
        let low_at = self.stack_pointer.wrapping_sub(2);
        self.bus.write_byte(high_at, ((pc & 0xFF00) >> 8) as u8);
        self.bus.write_byte(low_at, (pc & 0x00FF) as u8);
        self.stack_pointer = low_at;
        self.program_counter = vector;
    }

    pub fn program_counter(&self) -> (r: u16)
        ensures
            r == self@.pc,
    {
        self.program_counter
    }

    pub fn stack_pointer(&self) -> (r: u16)
        ensures
            r == self@.sp,
    {
        self.stack_pointer
    }

    pub fn registers(&self) -> (r: Registers)
        ensures
            r == self@.registers,
    {
        self.registers
    }

    pub fn is_halted(&self) -> (r: bool)
        ensures
            r == self@.halted,
    {
        self.is_halted
    }

    pub fn interrupts_enabled(&self) -> (r: bool)
        ensures
            r == self@.ime,
    {
        self.interrupts_enabled
    }
}

} // verus!
