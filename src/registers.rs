use vstd::prelude::*;
use crate::instructions::RegisterTarget;
use crate::util::{high_byte, join_u8, lemma_low_nibble, low_byte, split_u16, word};

verus! {

/// The four hardware flags.
#[derive(Clone, Copy, Debug, PartialEq, Eq, Structural)]
pub struct FlagRegister {
    pub zero: bool,
    pub subtract: bool,
    pub half_carry: bool,
    pub carry: bool,
}

/// The flags that a byte encodes: bit 7 zero, bit 6 subtract, bit 5 half-carry,
/// bit 4 carry; bits 3..0 are ignored.
pub open spec fn flags_from_byte(byte: u8) -> FlagRegister {
    FlagRegister {
        zero: byte & 0x80 != 0,
        subtract: byte & 0x40 != 0,
        half_carry: byte & 0x20 != 0,
        carry: byte & 0x10 != 0,
    }
}

/// The canonical byte of a flag set: bit 7 zero, bit 6 subtract, bit 5 half-carry,
/// bit 4 carry, bits 3..0 clear.
pub open spec fn flag_byte(flags: FlagRegister) -> u8 {
    (if flags.zero { 0x80u8 } else { 0u8 }) | (if flags.subtract { 0x40u8 } else { 0u8 }) | (
    if flags.half_carry { 0x20u8 } else { 0u8 }) | (if flags.carry { 0x10u8 } else { 0u8 })
}

impl FlagRegister {
    /// The canonical byte encoding of the flags.
    pub fn to_byte(&self) -> (r: u8)
        ensures
            r == flag_byte(*self),
    {
        (if self.zero { 0x80u8 } else { 0u8 }) | (if self.subtract { 0x40u8 } else { 0u8 }) | (
        if self.half_carry { 0x20u8 } else { 0u8 }) | (if self.carry { 0x10u8 } else { 0u8 })
    }
}

impl From<u8> for FlagRegister {
    fn from(byte: u8) -> (r: FlagRegister) {
        FlagRegister {
            zero: byte & 0x80 != 0,
            subtract: byte & 0x40 != 0,
            half_carry: byte & 0x20 != 0,
            carry: byte & 0x10 != 0,
        }
    }
}

impl vstd::std_specs::convert::FromSpecImpl<u8> for FlagRegister {
    open spec fn obeys_from_spec() -> bool {
        true
    }

    open spec fn from_spec(byte: u8) -> FlagRegister {
        flags_from_byte(byte)
    }
}

/// The register file: seven 8-bit registers and the flags. The pairs AF, BC, DE
/// and HL are views over these fields, high byte first.
#[derive(Clone, Copy, Debug, PartialEq, Eq, Structural)]
pub struct Registers {
    pub a: u8,
    pub b: u8,
    pub c: u8,
    pub d: u8,
    pub e: u8,
    pub f: FlagRegister,
    pub h: u8,
    pub l: u8,
}

impl Registers {
    /// The value of an 8-bit register.
    pub open spec fn get(self, target: RegisterTarget) -> u8 {
        match target {
            RegisterTarget::A => self.a,
            RegisterTarget::B => self.b,
            RegisterTarget::C => self.c,
            RegisterTarget::D => self.d,
            RegisterTarget::E => self.e,
            RegisterTarget::H => self.h,
            RegisterTarget::L => self.l,
        }
    }

    /// The register file with one 8-bit register replaced.
    pub open spec fn with_register(self, target: RegisterTarget, value: u8) -> Registers {
        match target {
            RegisterTarget::A => Registers { a: value, ..self },
            RegisterTarget::B => Registers { b: value, ..self },
            RegisterTarget::C => Registers { c: value, ..self },
            RegisterTarget::D => Registers { d: value, ..self },
            RegisterTarget::E => Registers { e: value, ..self },
            RegisterTarget::H => Registers { h: value, ..self },
            RegisterTarget::L => Registers { l: value, ..self },
        }
    }

    pub open spec fn af(self) -> u16 {
        word(self.a, flag_byte(self.f))
    }

    pub open spec fn bc(self) -> u16 {
        word(self.b, self.c)
    }

    pub open spec fn de(self) -> u16 {
        word(self.d, self.e)
    }

    pub open spec fn hl(self) -> u16 {
        word(self.h, self.l)
    }

    /// AF set to `value`: only the top nibble of the low byte is kept, as flags.
    pub open spec fn with_af(self, value: u16) -> Registers {
        Registers { a: high_byte(value), f: flags_from_byte(low_byte(value)), ..self }
    }

    pub open spec fn with_bc(self, value: u16) -> Registers {
        Registers { b: high_byte(value), c: low_byte(value), ..self }
    }

    pub open spec fn with_de(self, value: u16) -> Registers {
        Registers { d: high_byte(value), e: low_byte(value), ..self }
    }

    pub open spec fn with_hl(self, value: u16) -> Registers {
        Registers { h: high_byte(value), l: low_byte(value), ..self }
    }

    /// All registers zero, all flags clear.
    pub fn new() -> (r: Registers)
        ensures
            r == (Registers {
                a: 0,
                b: 0,
                c: 0,
                d: 0,
                e: 0,
                f: flags_from_byte(0),
                h: 0,
                l: 0,
            }),
    {
        Registers { a: 0, b: 0, c: 0, d: 0, e: 0, f: FlagRegister::from(0u8), h: 0, l: 0 }
    }

    pub fn get_af(&self) -> (r: u16)
        ensures
            r == self.af(),
    {
        join_u8(self.a, self.f.to_byte())
    }

    pub fn set_af(&mut self, value: u16)
        ensures
            *final(self) == old(self).with_af(value),
    {
        let (a, f) = split_u16(value);
        self.a = a;
        self.f = FlagRegister::from(f);
    }

    pub fn get_bc(&self) -> (r: u16)
        ensures
            r == self.bc(),
    {
        join_u8(self.b, self.c)
    }

    pub fn set_bc(&mut self, value: u16)
        ensures
            *final(self) == old(self).with_bc(value),
    {
        let (b, c) = split_u16(value);
        self.b = b;
        self.c = c;
    }

    pub fn get_de(&self) -> (r: u16)
        ensures
            r == self.de(),
    {
        join_u8(self.d, self.e)
    }

    pub fn set_de(&mut self, value: u16)
        ensures
            *final(self) == old(self).with_de(value),
    {
        let (d, e) = split_u16(value);
        self.d = d;
        self.e = e;
    }

    pub fn get_hl(&self) -> (r: u16)
        ensures
            r == self.hl(),
    {
        join_u8(self.h, self.l)
    }

    pub fn set_hl(&mut self, value: u16)
        ensures
            *final(self) == old(self).with_hl(value),
    {
        let (h, l) = split_u16(value);
        self.h = h;
        self.l = l;
    }
}

/// Decoding the byte of a flag set gives the flag set back.
pub proof fn lemma_flags_of_flag_byte(flags: FlagRegister)
    ensures
        flags_from_byte(flag_byte(flags)) == flags,
        flag_byte(flags) & 0x0F == 0,
{
    let (z, s, h, c) = (flags.zero, flags.subtract, flags.half_carry, flags.carry);
    let b = flag_byte(flags);
    assert(b == (if z { 0x80u8 } else { 0u8 }) | (if s { 0x40u8 } else { 0u8 }) | (if h {
        0x20u8
    } else {
        0u8
    }) | (if c { 0x10u8 } else { 0u8 }) ==> {
        &&& (b & 0x80 != 0) == z
        &&& (b & 0x40 != 0) == s
        &&& (b & 0x20 != 0) == h
        &&& (b & 0x10 != 0) == c
        &&& b & 0x0F == 0
    }) by (bit_vector);
}

/// Encoding the flags that a byte holds gives the byte's top nibble:
/// `FlagRegister::from(v).to_byte() == v & 0xF0`.
pub proof fn lemma_flag_byte_round_trip(v: u8)
    ensures
        flag_byte(flags_from_byte(v)) == v & 0xF0,
{
    assert((if v & 0x80 != 0 { 0x80u8 } else { 0u8 }) | (if v & 0x40 != 0 { 0x40u8 } else { 0u8 })
        | (if v & 0x20 != 0 { 0x20u8 } else { 0u8 }) | (if v & 0x10 != 0 { 0x10u8 } else { 0u8 })
        == v & 0xF0) by (bit_vector);
}

/// AF never has a bit of its low nibble set: the flags' byte keeps bits 3..0 clear.
pub proof fn lemma_af_low_nibble_clear(registers: Registers)
    ensures
        registers.af() & 0x000F == 0,
{
    let flags = flag_byte(registers.f);
    lemma_flags_of_flag_byte(registers.f);
    lemma_low_nibble(flags);
    let af = registers.af();
    assert(af == registers.a * 256 + flags);
    assert(af % 16 == flags % 16);
    assert(af % 16 == 0 ==> af & 0x000F == 0) by (bit_vector);
}

} // verus!
