//! The register file and the packed flags byte.
use vstd::prelude::*;

verus! {

pub const ZERO_FLAG_BIT: u8 = 7;
pub const SUBTRACT_FLAG_BIT: u8 = 6;
pub const HALF_CARRY_FLAG_BIT: u8 = 5;
pub const CARRY_FLAG_BIT: u8 = 4;

/// The four condition flags of the F register.
#[derive(Clone, Copy, Debug, PartialEq, Eq, Structural)]
pub struct FlagsRegister {
    pub zero: bool,
    pub subtract: bool,
    pub half_carry: bool,
    pub carry: bool,
}

pub open spec fn bit(b: bool, pos: u8) -> u8 {
    if b { (1u8 << pos) as u8 } else { 0 }
}

/// The packed byte of a set of flags: bits 7, 6, 5, 4, low nibble clear.
pub open spec fn flags_byte(f: FlagsRegister) -> u8 {
    (bit(f.zero, 7) | bit(f.subtract, 6) | bit(f.half_carry, 5) | bit(f.carry, 4)) as u8
}

/// The flags that a byte carries in its top nibble.
pub open spec fn flags_of(b: u8) -> FlagsRegister {
    FlagsRegister {
        zero: (b >> 7u8) & 1 != 0,
        subtract: (b >> 6u8) & 1 != 0,
        half_carry: (b >> 5u8) & 1 != 0,
        carry: (b >> 4u8) & 1 != 0,
    }
}

fn bit_of(b: bool, pos: u8) -> (r: u8)
    requires
        pos < 8,
    ensures
        r == bit(b, pos),
{
    if b {
        1u8 << pos
    } else {
        0
    }
}

/// Packs the flags into the F register's byte.
pub fn flags_to_byte(flags: FlagsRegister) -> (r: u8)
    ensures
        r == flags_byte(flags),
{
    bit_of(flags.zero, ZERO_FLAG_BIT) | bit_of(flags.subtract, SUBTRACT_FLAG_BIT) | bit_of(
        flags.half_carry,
        HALF_CARRY_FLAG_BIT,
    ) | bit_of(flags.carry, CARRY_FLAG_BIT)
}

/// Reads the flags out of a byte; the low nibble is ignored.
pub fn byte_to_flags(byte: u8) -> (r: FlagsRegister)
    ensures
        r == flags_of(byte),
{
    FlagsRegister {
        zero: (byte >> ZERO_FLAG_BIT) & 1 != 0,
        subtract: (byte >> SUBTRACT_FLAG_BIT) & 1 != 0,
        half_carry: (byte >> HALF_CARRY_FLAG_BIT) & 1 != 0,
        carry: (byte >> CARRY_FLAG_BIT) & 1 != 0,
    }
}

impl From<FlagsRegister> for u8 {
    fn from(flag: FlagsRegister) -> (r: u8) {
        flags_to_byte(flag)
    }
}

impl vstd::std_specs::convert::FromSpecImpl<FlagsRegister> for u8 {
    open spec fn obeys_from_spec() -> bool {
        true
    }

    open spec fn from_spec(flag: FlagsRegister) -> u8 {
        flags_byte(flag)
    }
}

impl From<u8> for FlagsRegister {
    fn from(byte: u8) -> (r: FlagsRegister) {
        byte_to_flags(byte)
    }
}

impl vstd::std_specs::convert::FromSpecImpl<u8> for FlagsRegister {
    open spec fn obeys_from_spec() -> bool {
        true
    }

    open spec fn from_spec(byte: u8) -> FlagsRegister {
        flags_of(byte)
    }
}

/// Encoding the flags read from any byte gives that byte with its low nibble cleared.
pub proof fn lemma_flags_round_trip(b: u8)
    ensures
        flags_byte(flags_of(b)) == b & 0xF0,
{
    let z = (b >> 7u8) & 1 != 0;
    let s = (b >> 6u8) & 1 != 0;
    let h = (b >> 5u8) & 1 != 0;
    let c = (b >> 4u8) & 1 != 0;
    assert(((if z { 1u8 << 7u8 } else { 0u8 }) | (if s { 1u8 << 6u8 } else { 0u8 }) | (if h {
        1u8 << 5u8
    } else {
        0u8
    }) | (if c { 1u8 << 4u8 } else { 0u8 })) == b & 0xF0) by (bit_vector)
        requires
            z == ((b >> 7u8) & 1 != 0),
            s == ((b >> 6u8) & 1 != 0),
            h == ((b >> 5u8) & 1 != 0),
            c == ((b >> 4u8) & 1 != 0),
    ;
}

/// Decoding the byte of any flags gives those flags back.
pub proof fn lemma_flags_decode_encode(f: FlagsRegister)
    ensures
        flags_of(flags_byte(f)) == f,
{
    let (z, s, h, c) = (f.zero, f.subtract, f.half_carry, f.carry);
    let x: u8 = ((if z { 1u8 << 7u8 } else { 0u8 }) | (if s { 1u8 << 6u8 } else { 0u8 }) | (if h {
        1u8 << 5u8
    } else {
        0u8
    }) | (if c { 1u8 << 4u8 } else { 0u8 }));
    assert(((x >> 7u8) & 1 != 0) == z && ((x >> 6u8) & 1 != 0) == s && ((x >> 5u8) & 1 != 0) == h
        && ((x >> 4u8) & 1 != 0) == c) by (bit_vector)
        requires
            x == ((if z { 1u8 << 7u8 } else { 0u8 }) | (if s { 1u8 << 6u8 } else { 0u8 }) | (if h {
                1u8 << 5u8
            } else {
                0u8
            }) | (if c { 1u8 << 4u8 } else { 0u8 })),
    ;
}

/// The 16-bit value of a register pair, high register first.
pub open spec fn pair_value(high: u8, low: u8) -> u16 {
    (((high as u16) << 8u16) | (low as u16)) as u16
}

pub open spec fn high_byte(v: u16) -> u8 {
    ((v & 0xFF00) >> 8u16) as u8
}

pub open spec fn low_byte(v: u16) -> u8 {
    (v & 0x00FF) as u8
}

/// Splitting a pair's value gives back both halves, and joining the halves of
/// any 16-bit value gives that value.
pub proof fn lemma_pair_round_trip(high: u8, low: u8, v: u16)
    ensures
        high_byte(pair_value(high, low)) == high,
        low_byte(pair_value(high, low)) == low,
        pair_value(high_byte(v), low_byte(v)) == v,
{
    assert((((((high as u16) << 8u16) | (low as u16)) & 0xFF00) >> 8u16) as u8 == high)
        by (bit_vector);
    assert(((((high as u16) << 8u16) | (low as u16)) & 0x00FF) as u8 == low) by (bit_vector);
    assert(((((((v & 0xFF00) >> 8u16) as u8) as u16) << 8u16) | (((v & 0x00FF) as u8) as u16))
        == v) by (bit_vector);
}

/// Eight 8-bit registers; the flags register is held unpacked.
#[derive(Clone, Copy, Debug, PartialEq, Eq, Structural)]
pub struct Registers {
    pub a: u8,
    pub b: u8,
    pub c: u8,
    pub d: u8,
    pub e: u8,
    pub f: FlagsRegister,
    pub h: u8,
    pub l: u8,
}

impl Registers {
    pub open spec fn spec_new() -> Registers {
        Registers {
            a: 0,
            b: 0,
            c: 0,
            d: 0,
            e: 0,
            f: FlagsRegister { zero: false, subtract: false, half_carry: false, carry: false },
            h: 0,
            l: 0,
        }
    }

    /// All registers zero, all flags clear.
    pub fn new() -> (r: Registers)
        ensures
            r == Registers::spec_new(),
    {
        Registers {
            a: 0,
            b: 0,
            c: 0,
            d: 0,
            e: 0,
            f: FlagsRegister { zero: false, subtract: false, half_carry: false, carry: false },
            h: 0,
            l: 0,
        }
    }

    pub fn get_bc(&self) -> (r: u16)
        ensures
            r == pair_value(self.b, self.c),
    {
        ((self.b as u16) << 8) | (self.c as u16)
    }

    pub fn set_bc(&mut self, value: u16)
        ensures
            *final(self) == (Registers { b: high_byte(value), c: low_byte(value), ..*old(self) }),
    {
        self.b = ((value & 0xFF00) >> 8) as u8;
        self.c = (value & 0x00FF) as u8;
    }

    pub fn get_de(&self) -> (r: u16)
        ensures
            r == pair_value(self.d, self.e),
    {
        ((self.d as u16) << 8) | (self.e as u16)
    }

    pub fn set_de(&mut self, value: u16)
        ensures
            *final(self) == (Registers { d: high_byte(value), e: low_byte(value), ..*old(self) }),
    {
        self.d = ((value & 0xFF00) >> 8) as u8;
        self.e = (value & 0x00FF) as u8;
    }

    pub fn get_hl(&self) -> (r: u16)
        ensures
            r == pair_value(self.h, self.l),
    {
        ((self.h as u16) << 8) | (self.l as u16)
    }

    pub fn set_hl(&mut self, value: u16)
        ensures
            *final(self) == (Registers { h: high_byte(value), l: low_byte(value), ..*old(self) }),
    {
        self.h = ((value & 0xFF00) >> 8) as u8;
        self.l = (value & 0x00FF) as u8;
    }
}

/// Writing a pair with the value it reads leaves the registers as they were.
pub proof fn lemma_set_get_pair(r: Registers)
    ensures
        (Registers { b: high_byte(pair_value(r.b, r.c)), c: low_byte(pair_value(r.b, r.c)), ..r })
            == r,
        (Registers { d: high_byte(pair_value(r.d, r.e)), e: low_byte(pair_value(r.d, r.e)), ..r })
            == r,
        (Registers { h: high_byte(pair_value(r.h, r.l)), l: low_byte(pair_value(r.h, r.l)), ..r })
            == r,
{
    lemma_pair_round_trip(r.b, r.c, 0);
    lemma_pair_round_trip(r.d, r.e, 0);
    lemma_pair_round_trip(r.h, r.l, 0);
}

} // verus!
