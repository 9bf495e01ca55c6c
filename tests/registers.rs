use gb_core::instruction::{ArithmeticTarget, DecodeFailure, Instruction};
use gb_core::registers::{byte_to_flags, flags_to_byte, FlagsRegister, Registers};

#[test]
fn pair_round_trips_for_every_byte_pair() {
    let mut r = Registers::new();
    for high in 0..=255u16 {
        for low in [0u16, 1, 0x7F, 0x80, 0xFF] {
            let v = (high << 8) | low;
            r.set_bc(v);
            assert_eq!(r.get_bc(), v);
            let before = r;
            r.set_bc(r.get_bc());
            assert_eq!(r, before);
        }
    }
}

#[test]
fn pairs_are_high_register_first() {
    let mut r = Registers::new();
    r.set_de(0x1234);
    assert_eq!(r.d, 0x12);
    assert_eq!(r.e, 0x34);
    r.set_hl(0xBEEF);
    assert_eq!(r.h, 0xBE);
    assert_eq!(r.l, 0xEF);
    assert_eq!(r.get_de(), 0x1234);
    assert_eq!(r.get_hl(), 0xBEEF);
    assert_eq!(r.get_bc(), 0);
}

#[test]
fn flags_round_trip_clears_low_nibble() {
    for b in 0..=255u8 {
        assert_eq!(flags_to_byte(byte_to_flags(b)), b & 0xF0);
        assert_eq!(u8::from(FlagsRegister::from(b)), b & 0xF0);
    }
}

#[test]
fn flag_bits_sit_at_positions_seven_to_four() {
    let f = FlagsRegister { zero: true, subtract: false, half_carry: true, carry: false };
    assert_eq!(flags_to_byte(f), 0xA0);
    let g = byte_to_flags(0x5F);
    assert_eq!(g, FlagsRegister { zero: false, subtract: true, half_carry: false, carry: true });
}

#[test]
fn decodes_every_opcode_of_the_table() {
    let table = [
        (0x00u8, Instruction::NOP),
        (0x76, Instruction::HALT),
        (0x80, Instruction::ADD(ArithmeticTarget::B)),
        (0x81, Instruction::ADD(ArithmeticTarget::C)),
        (0x82, Instruction::ADD(ArithmeticTarget::D)),
        (0x83, Instruction::ADD(ArithmeticTarget::E)),
        (0x84, Instruction::ADD(ArithmeticTarget::H)),
        (0x85, Instruction::ADD(ArithmeticTarget::L)),
        (0x86, Instruction::ADD(ArithmeticTarget::HLI)),
        (0x87, Instruction::ADD(ArithmeticTarget::A)),
        (0xC6, Instruction::ADD(ArithmeticTarget::D8)),
        (0xF3, Instruction::DI),
        (0xFB, Instruction::EI),
    ];
    for (byte, instruction) in table {
        assert_eq!(Instruction::from_byte(byte, false), Ok(instruction));
    }
}

#[test]
fn unmapped_opcode_is_a_decode_failure() {
    assert_eq!(
        Instruction::from_byte(0xFF, false),
        Err(DecodeFailure { opcode: 0xFF, prefixed: false })
    );
    assert_eq!(
        Instruction::from_byte(0x80, true),
        Err(DecodeFailure { opcode: 0x80, prefixed: true })
    );
}
