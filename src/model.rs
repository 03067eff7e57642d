use vstd::prelude::*;
use crate::instructions::{Instruction, JumpCondition, PushPopTarget, RegisterTarget, RegisterTarget16};
use crate::decode::decode;
use crate::memory::{lemma_word_round_trip, with_word, word_at};
use crate::registers::{flag_byte, flags_from_byte, lemma_flags_of_flag_byte, FlagRegister, Registers};
use crate::util::{high_byte, lemma_bytes_word, lemma_word_bytes, low_byte, word, wrap16};

verus! {

/// The accumulator and flags after adding `operand` to `a` at full width: the
/// result wraps to 8 bits; zero when it wraps to 0; carry on overflow out of bit 7;
/// half-carry on overflow out of bit 3 (the low nibbles' sum reaches 0x10).
pub open spec fn add_result(a: u8, operand: int) -> (u8, FlagRegister) {
    let sum = a + operand;
    (
        (sum % 256) as u8,
        FlagRegister {
            zero: sum % 256 == 0,
            subtract: false,
            half_carry: a % 16 + operand % 16 >= 16,
            carry: sum >= 256,
        },
    )
}

/// The accumulator and flags after adding `b` and the carry-in to `a`; the carry-in
/// takes part in both the carry and the half-carry.
pub open spec fn add_with_carry_result(a: u8, b: u8, carry_in: bool) -> (u8, FlagRegister) {
    let c: int = if carry_in { 1 } else { 0 };
    let sum = a + b + c;
    (
        (sum % 256) as u8,
        FlagRegister {
            zero: sum % 256 == 0,
            subtract: false,
            half_carry: a % 16 + b % 16 + c >= 16,
            carry: sum >= 256,
        },
    )
}

/// The accumulator and flags after subtracting `b` from `a`: the result wraps;
/// carry on borrow (`a < b`); half-carry on borrow from bit 4 (`a`'s low nibble is
/// below `b`'s).
pub open spec fn sub_result(a: u8, b: u8) -> (u8, FlagRegister) {
    let difference = a - b;
    (
        (difference % 256) as u8,
        FlagRegister {
            zero: difference % 256 == 0,
            subtract: true,
            half_carry: a % 16 < b % 16,
            carry: a < b,
        },
    )
}

/// HL and the flags after adding `value` to `hl`: the result wraps to 16 bits; zero
/// when it wraps to 0; carry on overflow out of bit 15; half-carry on overflow out
/// of bit 11.
pub open spec fn add16_result(hl: u16, value: u16) -> (u16, FlagRegister) {
    let sum = hl + value;
    (
        wrap16(sum),
        FlagRegister {
            zero: sum % 0x10000 == 0,
            subtract: false,
            half_carry: hl % 0x1000 + value % 0x1000 >= 0x1000,
            carry: sum >= 0x10000,
        },
    )
}

/// The address that the high-page loads reach: 0xFF00 + `offset`.
pub open spec fn high_page(offset: u8) -> u16 {
    word(0xFF, offset)
}

/// The state of the machine as the instructions see it: registers, program
/// counter, stack pointer and the 64 KiB of memory.
pub ghost struct CpuModel {
    pub registers: Registers,
    pub program_counter: u16,
    pub stack_pointer: u16,
    pub memory: Seq<u8>,
}

impl CpuModel {
    pub open spec fn byte_at(self, address: u16) -> u8 {
        self.memory[address as int]
    }

    /// The byte at the program counter.
    pub open spec fn immediate8(self) -> u8 {
        self.byte_at(self.program_counter)
    }

    /// The little-endian word at the program counter.
    pub open spec fn immediate16(self) -> u16 {
        word_at(self.memory, self.program_counter)
    }

    pub open spec fn advance_pc(self, n: int) -> CpuModel {
        CpuModel { program_counter: wrap16(self.program_counter + n), ..self }
    }

    pub open spec fn with_register(self, target: RegisterTarget, value: u8) -> CpuModel {
        CpuModel { registers: self.registers.with_register(target, value), ..self }
    }

    pub open spec fn with_byte(self, address: u16, value: u8) -> CpuModel {
        CpuModel { memory: self.memory.update(address as int, value), ..self }
    }

    /// A and F replaced by an ALU result.
    pub open spec fn with_accumulator(self, result: (u8, FlagRegister)) -> CpuModel {
        CpuModel { registers: Registers { a: result.0, f: result.1, ..self.registers }, ..self }
    }

    pub open spec fn register16(self, target: RegisterTarget16) -> u16 {
        match target {
            RegisterTarget16::BC => self.registers.bc(),
            RegisterTarget16::DE => self.registers.de(),
            RegisterTarget16::HL => self.registers.hl(),
            RegisterTarget16::SP => self.stack_pointer,
        }
    }

    pub open spec fn with_register16(self, target: RegisterTarget16, value: u16) -> CpuModel {
        match target {
            RegisterTarget16::BC => CpuModel { registers: self.registers.with_bc(value), ..self },
            RegisterTarget16::DE => CpuModel { registers: self.registers.with_de(value), ..self },
            RegisterTarget16::HL => CpuModel { registers: self.registers.with_hl(value), ..self },
            RegisterTarget16::SP => CpuModel { stack_pointer: value, ..self },
        }
    }

    pub open spec fn pair(self, target: PushPopTarget) -> u16 {
        match target {
            PushPopTarget::AF => self.registers.af(),
            PushPopTarget::BC => self.registers.bc(),
            PushPopTarget::DE => self.registers.de(),
            PushPopTarget::HL => self.registers.hl(),
        }
    }

    pub open spec fn with_pair(self, target: PushPopTarget, value: u16) -> CpuModel {
        match target {
            PushPopTarget::AF => CpuModel { registers: self.registers.with_af(value), ..self },
            PushPopTarget::BC => CpuModel { registers: self.registers.with_bc(value), ..self },
            PushPopTarget::DE => CpuModel { registers: self.registers.with_de(value), ..self },
            PushPopTarget::HL => CpuModel { registers: self.registers.with_hl(value), ..self },
        }
    }

    /// SP moves down by 2, then the pair is written there as a little-endian word.
    pub open spec fn push(self, target: PushPopTarget) -> CpuModel {
        let sp = wrap16(self.stack_pointer - 2);
        CpuModel { stack_pointer: sp, memory: with_word(self.memory, sp, self.pair(target)), ..self }
    }

    /// The pair is read from SP as a little-endian word, then SP moves up by 2.
    pub open spec fn pop(self, target: PushPopTarget) -> CpuModel {
        CpuModel {
            stack_pointer: wrap16(self.stack_pointer + 2),
            ..self.with_pair(target, word_at(self.memory, self.stack_pointer))
        }
    }

    pub open spec fn condition_holds(self, condition: JumpCondition) -> bool {
        match condition {
            JumpCondition::NotZero => !self.registers.f.zero,
            JumpCondition::Zero => self.registers.f.zero,
            JumpCondition::NotCarry => !self.registers.f.carry,
            JumpCondition::Carry => self.registers.f.carry,
        }
    }

    /// The opcode at PC, and whether it follows a 0xCB prefix (then it is the byte
    /// after the prefix).
    pub open spec fn fetched_opcode(self) -> (u8, bool) {
        let first = self.immediate8();
        if first == 0xCB {
            (self.byte_at(wrap16(self.program_counter + 1)), true)
        } else {
            (first, false)
        }
    }

    /// One fetch-decode-execute cycle: the opcode is fetched and PC moves past it,
    /// then its instruction executes. `None` when the opcode is not implemented.
    pub open spec fn step(self) -> Option<CpuModel> {
        let (opcode, prefixed) = self.fetched_opcode();
        let length = if prefixed { 2int } else { 1int };
        match decode(opcode, prefixed) {
            Some(instruction) => Some(self.advance_pc(length).execute(instruction)),
            None => None,
        }
    }

    /// The state after executing `instruction`, with the program counter already
    /// past the opcode: immediates are read at the program counter, which then
    /// moves past them.
    pub open spec fn execute(self, instruction: Instruction) -> CpuModel {
        let a = self.registers.a;
        let carry = self.registers.f.carry;
        let hl = self.registers.hl();
        match instruction {
            Instruction::AddRegister(r) => self.with_accumulator(add_result(a, self.registers.get(r) as int)),
            Instruction::AddIndirectHl => self.with_accumulator(add_result(a, self.byte_at(hl) as int)),
            Instruction::AddN => self.advance_pc(1).with_accumulator(add_result(a, self.immediate8() as int)),
            Instruction::AddCarryRegister(r) => self.with_accumulator(
                add_with_carry_result(a, self.registers.get(r), carry),
            ),
            Instruction::AdcIndirectHl => self.with_accumulator(add_with_carry_result(a, self.byte_at(hl), carry)),
            Instruction::AddCarryN => self.advance_pc(1).with_accumulator(
                add_with_carry_result(a, self.immediate8(), carry),
            ),
            Instruction::SubRegister(r) => self.with_accumulator(sub_result(a, self.registers.get(r))),
            Instruction::SubIndirectHl => self.with_accumulator(sub_result(a, self.byte_at(hl))),
            Instruction::SubN => self.advance_pc(1).with_accumulator(sub_result(a, self.immediate8())),
            Instruction::AddHlRegister16(rr) => {
                let (sum, flags) = add16_result(hl, self.register16(rr));
                CpuModel {
                    registers: Registers { f: flags, ..self.registers.with_hl(sum) },
                    ..self
                }
            },
            Instruction::LoadRegisterRegister(receiver, source) => self.with_register(
                receiver,
                self.registers.get(source),
            ),
            Instruction::LoadRegisterN(r) => self.advance_pc(1).with_register(r, self.immediate8()),
            Instruction::LoadRegisterIndirectHl(r) => self.with_register(r, self.byte_at(hl)),
            Instruction::LoadIndirectHlRegister(r) => self.with_byte(hl, self.registers.get(r)),
            Instruction::LoadIndirectHlN => self.advance_pc(1).with_byte(hl, self.immediate8()),
            Instruction::LoadAIndirectBc => self.with_register(RegisterTarget::A, self.byte_at(self.registers.bc())),
            Instruction::LoadAIndirectDe => self.with_register(RegisterTarget::A, self.byte_at(self.registers.de())),
            Instruction::LoadIndirectBcA => self.with_byte(self.registers.bc(), a),
            Instruction::LoadIndirectDeA => self.with_byte(self.registers.de(), a),
            Instruction::LoadANn => self.advance_pc(2).with_register(
                RegisterTarget::A,
                self.byte_at(self.immediate16()),
            ),
            Instruction::LoadNnA => self.advance_pc(2).with_byte(self.immediate16(), a),
            Instruction::LoadHalfAC => self.with_register(
                RegisterTarget::A,
                self.byte_at(high_page(self.registers.c)),
            ),
            Instruction::LoadHalfCA => self.with_byte(high_page(self.registers.c), a),
            Instruction::LoadHalfAN => self.advance_pc(1).with_register(
                RegisterTarget::A,
                self.byte_at(high_page(self.immediate8())),
            ),
            Instruction::LoadHalfNA => self.advance_pc(1).with_byte(high_page(self.immediate8()), a),
            Instruction::LoadAIndirectHlDecrement => self.with_register(
                RegisterTarget::A,
                self.byte_at(hl),
            ).with_register16(RegisterTarget16::HL, wrap16(hl - 1)),
            Instruction::LoadIndirectHlDecrementA => self.with_byte(hl, a).with_register16(
                RegisterTarget16::HL,
                wrap16(hl - 1),
            ),
            Instruction::LoadAIndirectHlIncrement => self.with_register(
                RegisterTarget::A,
                self.byte_at(hl),
            ).with_register16(RegisterTarget16::HL, wrap16(hl + 1)),
            Instruction::LoadIndirectHlIncrementA => self.with_byte(hl, a).with_register16(
                RegisterTarget16::HL,
                wrap16(hl + 1),
            ),
            Instruction::LoadRegister16Nn(rr) => self.advance_pc(2).with_register16(rr, self.immediate16()),
            Instruction::LoadNnFromStackPointer => CpuModel {
                memory: with_word(self.memory, self.immediate16(), self.stack_pointer),
                ..self.advance_pc(2)
            },
            Instruction::LoadStackPointerFromHl => CpuModel { stack_pointer: hl, ..self },
            Instruction::PushFromRegister(p) => self.push(p),
            Instruction::PopIntoRegister(p) => self.pop(p),
            Instruction::JumpToNn => CpuModel { program_counter: self.immediate16(), ..self },
            Instruction::JumpConditionalToNn(condition) => if self.condition_holds(condition) {
                CpuModel { program_counter: self.immediate16(), ..self }
            } else {
                self.advance_pc(2)
            },
        }
    }
}

/// Adding with a carry-in gives what adding the operand plus the carry-in at full
/// width gives, accumulator and flags alike. The half-carry is left out where the
/// operand's low nibble is 0xF and the carry-in is set: there the carry-in moves
/// the operand's nibble to 0, while the sum of nibbles still overflows bit 3.
pub proof fn lemma_add_with_carry_is_wide_add(a: u8, b: u8, carry_in: bool)
    requires
        !(carry_in && b % 16 == 15),
    ensures
        add_with_carry_result(a, b, carry_in) == add_result(a, b + (if carry_in { 1int } else { 0int })),
{
}

/// Pushing a pair and popping it back restores every register and the stack
/// pointer.
proof fn lemma_pop_undoes_push(before: CpuModel, target: PushPopTarget)
    requires
        before.memory.len() == 0x10000,
    ensures
        before.push(target).pop(target).registers == before.registers,
        before.push(target).pop(target).stack_pointer == before.stack_pointer,
        before.push(target).pop(target).program_counter == before.program_counter,
{
    let pushed = before.push(target);
    let value = before.pair(target);
    lemma_word_round_trip(before.memory, pushed.stack_pointer, value);
    assert(word_at(pushed.memory, pushed.stack_pointer) == value);
    assert(wrap16(pushed.stack_pointer + 2) == before.stack_pointer);
    let r = before.registers;
    match target {
        PushPopTarget::AF => {
            lemma_flags_of_flag_byte(r.f);
            lemma_word_bytes(r.a, flag_byte(r.f));
        },
        PushPopTarget::BC => lemma_word_bytes(r.b, r.c),
        PushPopTarget::DE => lemma_word_bytes(r.d, r.e),
        PushPopTarget::HL => lemma_word_bytes(r.h, r.l),
    }
}

/// For every register pair and value (with the low nibble clear for AF), setting the
/// pair, pushing it and popping it back leaves the pair holding the value, the
/// stack pointer where it was before the push, and every register as before the push.
pub proof fn lemma_push_pop_round_trip(m: CpuModel, target: PushPopTarget, value: u16)
    requires
        m.memory.len() == 0x10000,
        target == PushPopTarget::AF ==> value & 0x000F == 0,
    ensures
        ({
            let before = m.with_pair(target, value);
            let after = before.execute(Instruction::PushFromRegister(target)).execute(
                Instruction::PopIntoRegister(target),
            );
            &&& before.pair(target) == value
            &&& after.pair(target) == value
            &&& after.stack_pointer == before.stack_pointer
            &&& after.registers == before.registers
            &&& after.program_counter == before.program_counter
        }),
{
    let before = m.with_pair(target, value);
    let pushed = before.push(target);
    assert(before.execute(Instruction::PushFromRegister(target)) == pushed);
    assert(pushed.execute(Instruction::PopIntoRegister(target)) == pushed.pop(target));
    lemma_bytes_word(value);
    if target == PushPopTarget::AF {
        let low = low_byte(value);
        assert(value & 0x000F == 0 ==> ((value % 256) as u8) & 0xF0 == (value % 256) as u8)
            by (bit_vector);
        crate::registers::lemma_flag_byte_round_trip(low);
    }
    assert(before.pair(target) == value);
    lemma_pop_undoes_push(before, target);
}

} // verus!
