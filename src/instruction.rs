//! The instruction decoder: opcode byte and prefix flag to instruction.
use vstd::prelude::*;

verus! {

/// The byte that announces a second, prefixed opcode byte.
pub const PREFIX_BYTE: u8 = 0xCB;

/// The operand of an arithmetic instruction on the accumulator.
#[derive(Clone, Copy, Debug, PartialEq, Eq, Structural)]
pub enum ArithmeticTarget {
    A,
    B,
    C,
    D,
    E,
    H,
    L,
    /// The byte at the address held in HL.
    HLI,
    /// The byte following the opcode.
    D8,
}

#[allow(non_camel_case_types)]
#[derive(Clone, Copy, Debug, PartialEq, Eq, Structural)]
pub enum Instruction {
    ADD(ArithmeticTarget),
    NOP,
    HALT,
    DI,
    EI,
}

/// An opcode (with its prefix flag) that has no instruction.
#[derive(Clone, Copy, Debug, PartialEq, Eq, Structural)]
pub struct DecodeFailure {
    pub opcode: u8,
    pub prefixed: bool,
}

/// The decoding table.
pub open spec fn decoded(byte: u8, prefixed: bool) -> Option<Instruction> {
    if prefixed {
        None
    } else if byte == 0x00 {
        Some(Instruction::NOP)
    } else if byte == 0x76 {
        Some(Instruction::HALT)
    } else if byte == 0x80 {
        Some(Instruction::ADD(ArithmeticTarget::B))
    } else if byte == 0x81 {
        Some(Instruction::ADD(ArithmeticTarget::C))
    } else if byte == 0x82 {
        Some(Instruction::ADD(ArithmeticTarget::D))
    } else if byte == 0x83 {
        Some(Instruction::ADD(ArithmeticTarget::E))
    } else if byte == 0x84 {
        Some(Instruction::ADD(ArithmeticTarget::H))
    } else if byte == 0x85 {
        Some(Instruction::ADD(ArithmeticTarget::L))
    } else if byte == 0x86 {
        Some(Instruction::ADD(ArithmeticTarget::HLI))
    } else if byte == 0x87 {
        Some(Instruction::ADD(ArithmeticTarget::A))
    } else if byte == 0xC6 {
        Some(Instruction::ADD(ArithmeticTarget::D8))
    } else if byte == 0xF3 {
        Some(Instruction::DI)
    } else if byte == 0xFB {
        Some(Instruction::EI)
    } else {
        None
    }
}

/// What decoding returns: the table's instruction, or a failure naming the opcode.
pub open spec fn decode_result(byte: u8, prefixed: bool) -> Result<Instruction, DecodeFailure> {
    match decoded(byte, prefixed) {
        Some(i) => Ok(i),
        None => Err(DecodeFailure { opcode: byte, prefixed }),
    }
}

impl Instruction {
    pub fn from_byte(byte: u8, prefixed: bool) -> (r: Result<Instruction, DecodeFailure>)
        ensures
            r == decode_result(byte, prefixed),
    {
        if prefixed {
            return Err(DecodeFailure { opcode: byte, prefixed });
        }
        match byte {
            0x00 => Ok(Instruction::NOP),
            0x76 => Ok(Instruction::HALT),
            0x80 => Ok(Instruction::ADD(ArithmeticTarget::B)),
            0x81 => Ok(Instruction::ADD(ArithmeticTarget::C)),
            0x82 => Ok(Instruction::ADD(ArithmeticTarget::D)),
            0x83 => Ok(Instruction::ADD(ArithmeticTarget::E)),
            0x84 => Ok(Instruction::ADD(ArithmeticTarget::H)),
            0x85 => Ok(Instruction::ADD(ArithmeticTarget::L)),
            0x86 => Ok(Instruction::ADD(ArithmeticTarget::HLI)),
            0x87 => Ok(Instruction::ADD(ArithmeticTarget::A)),
            0xC6 => Ok(Instruction::ADD(ArithmeticTarget::D8)),
            0xF3 => Ok(Instruction::DI),
            0xFB => Ok(Instruction::EI),
            _ => Err(DecodeFailure { opcode: byte, prefixed }),
        }
    }
}

} // verus!
