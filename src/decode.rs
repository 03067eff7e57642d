use vstd::prelude::*;
use crate::instructions::{Instruction, JumpCondition, PushPopTarget, RegisterTarget, RegisterTarget16};

verus! {

/// The 8-bit register that a 3-bit operand field selects: 0 B, 1 C, 2 D, 3 E, 4 H,
/// 5 L, 7 A. (Code 6 selects the byte at HL, which is no register.)
pub open spec fn register_of_code(code: int) -> RegisterTarget {
    if code == 0 {
        RegisterTarget::B
    } else if code == 1 {
        RegisterTarget::C
    } else if code == 2 {
        RegisterTarget::D
    } else if code == 3 {
        RegisterTarget::E
    } else if code == 4 {
        RegisterTarget::H
    } else if code == 5 {
        RegisterTarget::L
    } else {
        RegisterTarget::A
    }
}

/// The 3-bit operand field of an 8-bit register.
pub open spec fn register_code(target: RegisterTarget) -> int {
    match target {
        RegisterTarget::B => 0,
        RegisterTarget::C => 1,
        RegisterTarget::D => 2,
        RegisterTarget::E => 3,
        RegisterTarget::H => 4,
        RegisterTarget::L => 5,
        RegisterTarget::A => 7,
    }
}

/// The 16-bit operand that a 2-bit field selects: 0 BC, 1 DE, 2 HL, 3 SP.
pub open spec fn register16_of_code(code: int) -> RegisterTarget16 {
    if code == 0 {
        RegisterTarget16::BC
    } else if code == 1 {
        RegisterTarget16::DE
    } else if code == 2 {
        RegisterTarget16::HL
    } else {
        RegisterTarget16::SP
    }
}

pub open spec fn register16_code(target: RegisterTarget16) -> int {
    match target {
        RegisterTarget16::BC => 0,
        RegisterTarget16::DE => 1,
        RegisterTarget16::HL => 2,
        RegisterTarget16::SP => 3,
    }
}

/// The instruction that an opcode byte denotes, `None` where it denotes none that
/// is implemented. Unprefixed opcodes are read as three fields, x = bits 7..6,
/// y = bits 5..3, z = bits 2..0; the block x = 3 is listed opcode by opcode. No
/// 0xCB-prefixed opcode is implemented.
pub open spec fn decode(byte: u8, prefixed: bool) -> Option<Instruction> {
    let x = byte as int / 64;
    let y = byte as int / 8 % 8;
    let z = byte as int % 8;
    if prefixed {
        None
    } else if x == 0 {
        if z == 1 && y % 2 == 0 {
            Some(Instruction::LoadRegister16Nn(register16_of_code(y / 2)))
        } else if z == 1 {
            Some(Instruction::AddHlRegister16(register16_of_code(y / 2)))
        } else if z == 2 {
            Some(
                if y == 0 {
                    Instruction::LoadIndirectBcA
                } else if y == 1 {
                    Instruction::LoadAIndirectBc
                } else if y == 2 {
                    Instruction::LoadIndirectDeA
                } else if y == 3 {
                    Instruction::LoadAIndirectDe
                } else if y == 4 {
                    Instruction::LoadIndirectHlIncrementA
                } else if y == 5 {
                    Instruction::LoadAIndirectHlIncrement
                } else if y == 6 {
                    Instruction::LoadIndirectHlDecrementA
                } else {
                    Instruction::LoadAIndirectHlDecrement
                },
            )
        } else if z == 6 && y == 6 {
            Some(Instruction::LoadIndirectHlN)
        } else if z == 6 {
            Some(Instruction::LoadRegisterN(register_of_code(y)))
        } else if z == 0 && y == 1 {
            Some(Instruction::LoadNnFromStackPointer)
        } else {
            None
        }
    } else if x == 1 {
        if y == 6 && z == 6 {
            None
        } else if z == 6 {
            Some(Instruction::LoadRegisterIndirectHl(register_of_code(y)))
        } else if y == 6 {
            Some(Instruction::LoadIndirectHlRegister(register_of_code(z)))
        } else {
            Some(Instruction::LoadRegisterRegister(register_of_code(y), register_of_code(z)))
        }
    } else if x == 2 {
        if y == 0 && z == 6 {
            Some(Instruction::AddIndirectHl)
        } else if y == 0 {
            Some(Instruction::AddRegister(register_of_code(z)))
        } else if y == 1 && z == 6 {
            Some(Instruction::AdcIndirectHl)
        } else if y == 1 {
            Some(Instruction::AddCarryRegister(register_of_code(z)))
        } else if y == 2 && z == 6 {
            Some(Instruction::SubIndirectHl)
        } else if y == 2 {
            Some(Instruction::SubRegister(register_of_code(z)))
        } else {
            None
        }
    } else {
        match byte {
            0xC1 => Some(Instruction::PopIntoRegister(PushPopTarget::BC)),
            0xD1 => Some(Instruction::PopIntoRegister(PushPopTarget::DE)),
            0xE1 => Some(Instruction::PopIntoRegister(PushPopTarget::HL)),
            0xF1 => Some(Instruction::PopIntoRegister(PushPopTarget::AF)),
            0xC5 => Some(Instruction::PushFromRegister(PushPopTarget::BC)),
            0xD5 => Some(Instruction::PushFromRegister(PushPopTarget::DE)),
            0xE5 => Some(Instruction::PushFromRegister(PushPopTarget::HL)),
            0xF5 => Some(Instruction::PushFromRegister(PushPopTarget::AF)),
            0xC2 => Some(Instruction::JumpConditionalToNn(JumpCondition::NotZero)),
            0xCA => Some(Instruction::JumpConditionalToNn(JumpCondition::Zero)),
            0xD2 => Some(Instruction::JumpConditionalToNn(JumpCondition::NotCarry)),
            0xDA => Some(Instruction::JumpConditionalToNn(JumpCondition::Carry)),
            0xC3 => Some(Instruction::JumpToNn),
            0xC6 => Some(Instruction::AddN),
            0xCE => Some(Instruction::AddCarryN),
            0xD6 => Some(Instruction::SubN),
            0xE0 => Some(Instruction::LoadHalfNA),
            0xF0 => Some(Instruction::LoadHalfAN),
            0xE2 => Some(Instruction::LoadHalfCA),
            0xF2 => Some(Instruction::LoadHalfAC),
            0xEA => Some(Instruction::LoadNnA),
            0xFA => Some(Instruction::LoadANn),
            0xF9 => Some(Instruction::LoadStackPointerFromHl),
            _ => None,
        }
    }
}

impl Instruction {
    /// The instruction of an opcode, from the prefixed or the unprefixed set; `None`
    /// where no instruction is implemented.
    pub fn from_byte(byte: u8, is_prefixed: bool) -> (r: Option<Instruction>)
        ensures
            r == decode(byte, is_prefixed),
    {
        if is_prefixed {
            Instruction::from_byte_prefixed(byte)
        } else {
            Instruction::from_byte_not_prefixed(byte)
        }
    }

    /// The instruction of an unprefixed opcode.
    pub fn from_byte_not_prefixed(byte: u8) -> (r: Option<Instruction>)
        ensures
            r == decode(byte, false),
    {
        match byte {
0x01 => Some(Instruction::LoadRegister16Nn(RegisterTarget16::BC)),
            0x02 => Some(Instruction::LoadIndirectBcA),
            0x06 => Some(Instruction::LoadRegisterN(RegisterTarget::B)),
            0x08 => Some(Instruction::LoadNnFromStackPointer),
            0x09 => Some(Instruction::AddHlRegister16(RegisterTarget16::BC)),
            0x0A => Some(Instruction::LoadAIndirectBc),
            0x0E => Some(Instruction::LoadRegisterN(RegisterTarget::C)),
            0x11 => Some(Instruction::LoadRegister16Nn(RegisterTarget16::DE)),
            0x12 => Some(Instruction::LoadIndirectDeA),
            0x16 => Some(Instruction::LoadRegisterN(RegisterTarget::D)),
            0x19 => Some(Instruction::AddHlRegister16(RegisterTarget16::DE)),
            0x1A => Some(Instruction::LoadAIndirectDe),
            0x1E => Some(Instruction::LoadRegisterN(RegisterTarget::E)),
            0x21 => Some(Instruction::LoadRegister16Nn(RegisterTarget16::HL)),
            0x22 => Some(Instruction::LoadIndirectHlIncrementA),
            0x26 => Some(Instruction::LoadRegisterN(RegisterTarget::H)),
            0x29 => Some(Instruction::AddHlRegister16(RegisterTarget16::HL)),
            0x2A => Some(Instruction::LoadAIndirectHlIncrement),
            0x2E => Some(Instruction::LoadRegisterN(RegisterTarget::L)),
            0x31 => Some(Instruction::LoadRegister16Nn(RegisterTarget16::SP)),
            0x32 => Some(Instruction::LoadIndirectHlDecrementA),
            0x36 => Some(Instruction::LoadIndirectHlN),
            0x39 => Some(Instruction::AddHlRegister16(RegisterTarget16::SP)),
            0x3A => Some(Instruction::LoadAIndirectHlDecrement),
            0x3E => Some(Instruction::LoadRegisterN(RegisterTarget::A)),
            0x40 => Some(Instruction::LoadRegisterRegister(RegisterTarget::B, RegisterTarget::B)),
            0x41 => Some(Instruction::LoadRegisterRegister(RegisterTarget::B, RegisterTarget::C)),
            0x42 => Some(Instruction::LoadRegisterRegister(RegisterTarget::B, RegisterTarget::D)),
            0x43 => Some(Instruction::LoadRegisterRegister(RegisterTarget::B, RegisterTarget::E)),
            0x44 => Some(Instruction::LoadRegisterRegister(RegisterTarget::B, RegisterTarget::H)),
            0x45 => Some(Instruction::LoadRegisterRegister(RegisterTarget::B, RegisterTarget::L)),
            0x46 => Some(Instruction::LoadRegisterIndirectHl(RegisterTarget::B)),
            0x47 => Some(Instruction::LoadRegisterRegister(RegisterTarget::B, RegisterTarget::A)),
            0x48 => Some(Instruction::LoadRegisterRegister(RegisterTarget::C, RegisterTarget::B)),
            0x49 => Some(Instruction::LoadRegisterRegister(RegisterTarget::C, RegisterTarget::C)),
            0x4A => Some(Instruction::LoadRegisterRegister(RegisterTarget::C, RegisterTarget::D)),
            0x4B => Some(Instruction::LoadRegisterRegister(RegisterTarget::C, RegisterTarget::E)),
            0x4C => Some(Instruction::LoadRegisterRegister(RegisterTarget::C, RegisterTarget::H)),
            0x4D => Some(Instruction::LoadRegisterRegister(RegisterTarget::C, RegisterTarget::L)),
            0x4E => Some(Instruction::LoadRegisterIndirectHl(RegisterTarget::C)),
            0x4F => Some(Instruction::LoadRegisterRegister(RegisterTarget::C, RegisterTarget::A)),
            0x50 => Some(Instruction::LoadRegisterRegister(RegisterTarget::D, RegisterTarget::B)),
            0x51 => Some(Instruction::LoadRegisterRegister(RegisterTarget::D, RegisterTarget::C)),
            0x52 => Some(Instruction::LoadRegisterRegister(RegisterTarget::D, RegisterTarget::D)),
            0x53 => Some(Instruction::LoadRegisterRegister(RegisterTarget::D, RegisterTarget::E)),
            0x54 => Some(Instruction::LoadRegisterRegister(RegisterTarget::D, RegisterTarget::H)),
            0x55 => Some(Instruction::LoadRegisterRegister(RegisterTarget::D, RegisterTarget::L)),
            0x56 => Some(Instruction::LoadRegisterIndirectHl(RegisterTarget::D)),
            0x57 => Some(Instruction::LoadRegisterRegister(RegisterTarget::D, RegisterTarget::A)),
            0x58 => Some(Instruction::LoadRegisterRegister(RegisterTarget::E, RegisterTarget::B)),
            0x59 => Some(Instruction::LoadRegisterRegister(RegisterTarget::E, RegisterTarget::C)),
            0x5A => Some(Instruction::LoadRegisterRegister(RegisterTarget::E, RegisterTarget::D)),
            0x5B => Some(Instruction::LoadRegisterRegister(RegisterTarget::E, RegisterTarget::E)),
            0x5C => Some(Instruction::LoadRegisterRegister(RegisterTarget::E, RegisterTarget::H)),
            0x5D => Some(Instruction::LoadRegisterRegister(RegisterTarget::E, RegisterTarget::L)),
            0x5E => Some(Instruction::LoadRegisterIndirectHl(RegisterTarget::E)),
            0x5F => Some(Instruction::LoadRegisterRegister(RegisterTarget::E, RegisterTarget::A)),
            0x60 => Some(Instruction::LoadRegisterRegister(RegisterTarget::H, RegisterTarget::B)),
            0x61 => Some(Instruction::LoadRegisterRegister(RegisterTarget::H, RegisterTarget::C)),
            0x62 => Some(Instruction::LoadRegisterRegister(RegisterTarget::H, RegisterTarget::D)),
            0x63 => Some(Instruction::LoadRegisterRegister(RegisterTarget::H, RegisterTarget::E)),
            0x64 => Some(Instruction::LoadRegisterRegister(RegisterTarget::H, RegisterTarget::H)),
            0x65 => Some(Instruction::LoadRegisterRegister(RegisterTarget::H, RegisterTarget::L)),
            0x66 => Some(Instruction::LoadRegisterIndirectHl(RegisterTarget::H)),
            0x67 => Some(Instruction::LoadRegisterRegister(RegisterTarget::H, RegisterTarget::A)),
            0x68 => Some(Instruction::LoadRegisterRegister(RegisterTarget::L, RegisterTarget::B)),
            0x69 => Some(Instruction::LoadRegisterRegister(RegisterTarget::L, RegisterTarget::C)),
            0x6A => Some(Instruction::LoadRegisterRegister(RegisterTarget::L, RegisterTarget::D)),
            0x6B => Some(Instruction::LoadRegisterRegister(RegisterTarget::L, RegisterTarget::E)),
            0x6C => Some(Instruction::LoadRegisterRegister(RegisterTarget::L, RegisterTarget::H)),
            0x6D => Some(Instruction::LoadRegisterRegister(RegisterTarget::L, RegisterTarget::L)),
            0x6E => Some(Instruction::LoadRegisterIndirectHl(RegisterTarget::L)),
            0x6F => Some(Instruction::LoadRegisterRegister(RegisterTarget::L, RegisterTarget::A)),
            0x70 => Some(Instruction::LoadIndirectHlRegister(RegisterTarget::B)),
            0x71 => Some(Instruction::LoadIndirectHlRegister(RegisterTarget::C)),
            0x72 => Some(Instruction::LoadIndirectHlRegister(RegisterTarget::D)),
            0x73 => Some(Instruction::LoadIndirectHlRegister(RegisterTarget::E)),
            0x74 => Some(Instruction::LoadIndirectHlRegister(RegisterTarget::H)),
            0x75 => Some(Instruction::LoadIndirectHlRegister(RegisterTarget::L)),
            0x77 => Some(Instruction::LoadIndirectHlRegister(RegisterTarget::A)),
            0x78 => Some(Instruction::LoadRegisterRegister(RegisterTarget::A, RegisterTarget::B)),
            0x79 => Some(Instruction::LoadRegisterRegister(RegisterTarget::A, RegisterTarget::C)),
            0x7A => Some(Instruction::LoadRegisterRegister(RegisterTarget::A, RegisterTarget::D)),
            0x7B => Some(Instruction::LoadRegisterRegister(RegisterTarget::A, RegisterTarget::E)),
            0x7C => Some(Instruction::LoadRegisterRegister(RegisterTarget::A, RegisterTarget::H)),
            0x7D => Some(Instruction::LoadRegisterRegister(RegisterTarget::A, RegisterTarget::L)),
            0x7E => Some(Instruction::LoadRegisterIndirectHl(RegisterTarget::A)),
            0x7F => Some(Instruction::LoadRegisterRegister(RegisterTarget::A, RegisterTarget::A)),
            0x80 => Some(Instruction::AddRegister(RegisterTarget::B)),
            0x81 => Some(Instruction::AddRegister(RegisterTarget::C)),
            0x82 => Some(Instruction::AddRegister(RegisterTarget::D)),
            0x83 => Some(Instruction::AddRegister(RegisterTarget::E)),
            0x84 => Some(Instruction::AddRegister(RegisterTarget::H)),
            0x85 => Some(Instruction::AddRegister(RegisterTarget::L)),
            0x86 => Some(Instruction::AddIndirectHl),
            0x87 => Some(Instruction::AddRegister(RegisterTarget::A)),
            0x88 => Some(Instruction::AddCarryRegister(RegisterTarget::B)),
            0x89 => Some(Instruction::AddCarryRegister(RegisterTarget::C)),
            0x8A => Some(Instruction::AddCarryRegister(RegisterTarget::D)),
            0x8B => Some(Instruction::AddCarryRegister(RegisterTarget::E)),
            0x8C => Some(Instruction::AddCarryRegister(RegisterTarget::H)),
            0x8D => Some(Instruction::AddCarryRegister(RegisterTarget::L)),
            0x8E => Some(Instruction::AdcIndirectHl),
            0x8F => Some(Instruction::AddCarryRegister(RegisterTarget::A)),
            0x90 => Some(Instruction::SubRegister(RegisterTarget::B)),
            0x91 => Some(Instruction::SubRegister(RegisterTarget::C)),
            0x92 => Some(Instruction::SubRegister(RegisterTarget::D)),
            0x93 => Some(Instruction::SubRegister(RegisterTarget::E)),
            0x94 => Some(Instruction::SubRegister(RegisterTarget::H)),
            0x95 => Some(Instruction::SubRegister(RegisterTarget::L)),
            0x96 => Some(Instruction::SubIndirectHl),
            0x97 => Some(Instruction::SubRegister(RegisterTarget::A)),
            0xC1 => Some(Instruction::PopIntoRegister(PushPopTarget::BC)),
            0xC2 => Some(Instruction::JumpConditionalToNn(JumpCondition::NotZero)),
            0xC3 => Some(Instruction::JumpToNn),
            0xC5 => Some(Instruction::PushFromRegister(PushPopTarget::BC)),
            0xC6 => Some(Instruction::AddN),
            0xCA => Some(Instruction::JumpConditionalToNn(JumpCondition::Zero)),
            0xCE => Some(Instruction::AddCarryN),
            0xD1 => Some(Instruction::PopIntoRegister(PushPopTarget::DE)),
            0xD2 => Some(Instruction::JumpConditionalToNn(JumpCondition::NotCarry)),
            0xD5 => Some(Instruction::PushFromRegister(PushPopTarget::DE)),
            0xD6 => Some(Instruction::SubN),
            0xDA => Some(Instruction::JumpConditionalToNn(JumpCondition::Carry)),
            0xE0 => Some(Instruction::LoadHalfNA),
            0xE1 => Some(Instruction::PopIntoRegister(PushPopTarget::HL)),
            0xE2 => Some(Instruction::LoadHalfCA),
            0xE5 => Some(Instruction::PushFromRegister(PushPopTarget::HL)),
            0xEA => Some(Instruction::LoadNnA),
            0xF0 => Some(Instruction::LoadHalfAN),
            0xF1 => Some(Instruction::PopIntoRegister(PushPopTarget::AF)),
            0xF2 => Some(Instruction::LoadHalfAC),
            0xF5 => Some(Instruction::PushFromRegister(PushPopTarget::AF)),
            0xF9 => Some(Instruction::LoadStackPointerFromHl),
            0xFA => Some(Instruction::LoadANn),
            _ => None,
        }
    }

    /// The instruction of a 0xCB-prefixed opcode: none is implemented yet.
    pub fn from_byte_prefixed(byte: u8) -> (r: Option<Instruction>)
        ensures
            r == decode(byte, true),
    {
        None
    }
}

/// The unprefixed opcode of an instruction: the inverse of `decode`.
pub open spec fn opcode_of(instruction: Instruction) -> int {
    match instruction {
        Instruction::AddRegister(r) => 0x80 + register_code(r),
        Instruction::AddIndirectHl => 0x86,
        Instruction::AddN => 0xC6,
        Instruction::AddCarryRegister(r) => 0x88 + register_code(r),
        Instruction::AdcIndirectHl => 0x8E,
        Instruction::AddCarryN => 0xCE,
        Instruction::SubRegister(r) => 0x90 + register_code(r),
        Instruction::SubIndirectHl => 0x96,
        Instruction::SubN => 0xD6,
        Instruction::AddHlRegister16(rr) => 0x09 + 16 * register16_code(rr),
        Instruction::LoadRegisterRegister(receiver, source) => 0x40 + 8 * register_code(receiver)
            + register_code(source),
        Instruction::LoadRegisterN(r) => 0x06 + 8 * register_code(r),
        Instruction::LoadRegisterIndirectHl(r) => 0x46 + 8 * register_code(r),
        Instruction::LoadIndirectHlRegister(r) => 0x70 + register_code(r),
        Instruction::LoadIndirectHlN => 0x36,
        Instruction::LoadAIndirectBc => 0x0A,
        Instruction::LoadAIndirectDe => 0x1A,
        Instruction::LoadIndirectBcA => 0x02,
        Instruction::LoadIndirectDeA => 0x12,
        Instruction::LoadANn => 0xFA,
        Instruction::LoadNnA => 0xEA,
        Instruction::LoadHalfAC => 0xF2,
        Instruction::LoadHalfCA => 0xE2,
        Instruction::LoadHalfAN => 0xF0,
        Instruction::LoadHalfNA => 0xE0,
        Instruction::LoadAIndirectHlDecrement => 0x3A,
        Instruction::LoadIndirectHlDecrementA => 0x32,
        Instruction::LoadAIndirectHlIncrement => 0x2A,
        Instruction::LoadIndirectHlIncrementA => 0x22,
        Instruction::LoadRegister16Nn(rr) => 0x01 + 16 * register16_code(rr),
        Instruction::LoadNnFromStackPointer => 0x08,
        Instruction::LoadStackPointerFromHl => 0xF9,
        Instruction::PushFromRegister(p) => match p {
            PushPopTarget::BC => 0xC5,
            PushPopTarget::DE => 0xD5,
            PushPopTarget::HL => 0xE5,
            PushPopTarget::AF => 0xF5,
        },
        Instruction::PopIntoRegister(p) => match p {
            PushPopTarget::BC => 0xC1,
            PushPopTarget::DE => 0xD1,
            PushPopTarget::HL => 0xE1,
            PushPopTarget::AF => 0xF1,
        },
        Instruction::JumpToNn => 0xC3,
        Instruction::JumpConditionalToNn(c) => match c {
            JumpCondition::NotZero => 0xC2,
            JumpCondition::Zero => 0xCA,
            JumpCondition::NotCarry => 0xD2,
            JumpCondition::Carry => 0xDA,
        },
    }
}

/// Every implemented unprefixed opcode is the opcode of the instruction it decodes to.
pub proof fn lemma_opcode_of_decode(byte: u8)
    ensures
        match decode(byte, false) {
            Some(instruction) => opcode_of(instruction) == byte,
            None => true,
        },
{
    let b = byte as int;
    let y = b / 8 % 8;
    let z = b % 8;
    assert(b == 64 * (b / 64) + 8 * y + z);
    assert(0 <= y < 8 && 0 <= z < 8);
    if y != 6 {
        assert(register_code(register_of_code(y)) == y);
    }
    if z != 6 {
        assert(register_code(register_of_code(z)) == z);
    }
    assert(y % 2 == 0 ==> y == 2 * (y / 2));
    assert(y % 2 == 1 ==> y == 2 * (y / 2) + 1);
    assert(register16_code(register16_of_code(y / 2)) == y / 2);
}

/// Within each decode table no two distinct opcodes decode to the same instruction.
pub proof fn lemma_decode_unique(b1: u8, b2: u8, prefixed: bool)
    requires
        b1 != b2,
        decode(b1, prefixed) is Some,
    ensures
        decode(b1, prefixed) != decode(b2, prefixed),
{
    lemma_opcode_of_decode(b1);
    lemma_opcode_of_decode(b2);
}

/// The unprefixed decode table: entry `i` is the instruction of opcode `i`.
pub fn init_instruction_array() -> (r: [Option<Instruction>; 256])
    ensures
        forall|i: int| 0 <= i < 256 ==> r@[i] == decode(i as u8, false),
{
    let mut table: [Option<Instruction>; 256] = [None; 256];
    let mut byte: usize = 0;
    while byte < 256
        invariant
            byte <= 256,
            forall|i: int| 0 <= i < byte ==> table@[i] == decode(i as u8, false),
        decreases 256 - byte,
    {
        table[byte] = Instruction::from_byte_not_prefixed(byte as u8);
        byte += 1;
    }
    table
}

/// The 0xCB-prefixed decode table: entry `i` is the instruction of opcode 0xCB `i`.
pub fn init_prefix_instruction_array() -> (r: [Option<Instruction>; 256])
    ensures
        forall|i: int| 0 <= i < 256 ==> r@[i] == decode(i as u8, true),
{
    let mut table: [Option<Instruction>; 256] = [None; 256];
    let mut byte: usize = 0;
    while byte < 256
        invariant
            byte <= 256,
            forall|i: int| 0 <= i < byte ==> table@[i] == decode(i as u8, true),
        decreases 256 - byte,
    {
        table[byte] = Instruction::from_byte_prefixed(byte as u8);
        byte += 1;
    }
    table
}

/// The two decode tables, built once and never changed afterwards.
#[derive(Debug)]
pub struct DecodeTables {
    unprefixed: [Option<Instruction>; 256],
    prefixed: [Option<Instruction>; 256],
}

impl DecodeTables {
    #[verifier::type_invariant]
    spec fn holds_decode(self) -> bool {
        forall|i: int|
            0 <= i < 256 ==> self.unprefixed@[i] == decode(i as u8, false) && self.prefixed@[i]
                == decode(i as u8, true)
    }

    pub fn new() -> (r: DecodeTables) {
        DecodeTables { unprefixed: init_instruction_array(), prefixed: init_prefix_instruction_array() }
    }

    /// The instruction of an opcode, looked up in the table that `is_prefixed` selects.
    pub fn from_byte(&self, byte: u8, is_prefixed: bool) -> (r: Option<Instruction>)
        ensures
            r == decode(byte, is_prefixed),
    {
        proof {
            use_type_invariant(self);
        }
        if is_prefixed {
            self.prefixed[byte as usize]
        } else {
            self.unprefixed[byte as usize]
        }
    }
}

} // verus!
