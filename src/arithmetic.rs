use vstd::prelude::*;
use crate::cpu::CPU;
use crate::instructions::{Instruction, RegisterTarget, RegisterTarget16};
use crate::model::{add16_result, add_result, add_with_carry_result, sub_result, CpuModel};
use crate::registers::{FlagRegister, Registers};
use crate::util::{lemma_low_nibble, lemma_low_twelve_bits};

verus! {

impl CPU {
    /// A <- A + R.
    pub fn add_r(&mut self, target: RegisterTarget)
        ensures
            final(self)@ == old(self)@.execute(Instruction::AddRegister(target)),
    {
        let value = self.get_register_value(target);
        self.add_constant(value);
    }

    /// A <- A + (HL).
    pub fn add_hl(&mut self)
        ensures
            final(self)@ == old(self)@.execute(Instruction::AddIndirectHl),
    {
        let address = self.registers.get_hl();
        let value = self.bus.read_byte(address);
        self.add_constant(value);
    }

    /// A <- A + N, N read at PC.
    pub fn add_n(&mut self)
        ensures
            final(self)@ == old(self)@.execute(Instruction::AddN),
    {
        let value = self.read_byte_and_increment_pc();
        self.add_constant(value);
    }

    /// A <- A + R + carry.
    pub fn adc_r(&mut self, target: RegisterTarget)
        ensures
            final(self)@ == old(self)@.execute(Instruction::AddCarryRegister(target)),
    {
        let value = self.get_register_value(target);
        self.add_constant_carry(value);
    }

    /// A <- A + (HL) + carry.
    pub fn adc_hl(&mut self)
        ensures
            final(self)@ == old(self)@.execute(Instruction::AdcIndirectHl),
    {
        let address = self.registers.get_hl();
        let value = self.bus.read_byte(address);
        self.add_constant_carry(value);
    }

    /// A <- A + N + carry, N read at PC.
    pub fn adc_n(&mut self)
        ensures
            final(self)@ == old(self)@.execute(Instruction::AddCarryN),
    {
        let value = self.read_byte_and_increment_pc();
        self.add_constant_carry(value);
    }

    /// A <- A - R.
    pub fn sub_r(&mut self, target: RegisterTarget)
        ensures
            final(self)@ == old(self)@.execute(Instruction::SubRegister(target)),
    {
        let value = self.get_register_value(target);
        self.sub_constant(value);
    }

    /// A <- A - (HL).
    pub fn sub_hl(&mut self)
        ensures
            final(self)@ == old(self)@.execute(Instruction::SubIndirectHl),
    {
        let address = self.registers.get_hl();
        let value = self.bus.read_byte(address);
        self.sub_constant(value);
    }

    /// A <- A - N, N read at PC.
    pub fn sub_n(&mut self)
        ensures
            final(self)@ == old(self)@.execute(Instruction::SubN),
    {
        let value = self.read_byte_and_increment_pc();
        self.sub_constant(value);
    }

    /// HL <- HL + RR.
    pub fn add_hl_rr(&mut self, target: RegisterTarget16)
        ensures
            final(self)@ == old(self)@.execute(Instruction::AddHlRegister16(target)),
    {
        let value = self.get_register_value_16(target);
        self.add_constant_16(value);
    }

    /// Adds `value` to A and sets the flags from the 8-bit addition.
    pub fn add_constant(&mut self, value: u8)
        ensures
            final(self)@ == old(self)@.with_accumulator(add_result(old(self).registers.a, value as int)),
    {
        let a = self.registers.a;
        let sum: u16 = a as u16 + value as u16;
        proof {
            lemma_low_nibble(a);
            lemma_low_nibble(value);
        }
        let new_value = a.wrapping_add(value);
        self.registers.f = FlagRegister {
            zero: new_value == 0,
            subtract: false,
            half_carry: (a & 0xF) + (value & 0xF) > 0xF,
            carry: sum > 0xFF,
        };
        self.registers.a = new_value;
    }

    /// Adds `value` and the carry flag to A and sets the flags from the addition, the
    /// carry-in counting in both the carry and the half-carry.
    pub fn add_constant_carry(&mut self, value: u8)
        ensures
            final(self)@ == old(self)@.with_accumulator(
                add_with_carry_result(old(self).registers.a, value, old(self).registers.f.carry),
            ),
    {
        let a = self.registers.a;
        let carry_in: u8 = if self.registers.f.carry { 1 } else { 0 };
        let sum: u16 = a as u16 + value as u16 + carry_in as u16;
        proof {
            lemma_low_nibble(a);
            lemma_low_nibble(value);
        }
        let new_value = (sum % 256) as u8;
        self.registers.f = FlagRegister {
            zero: new_value == 0,
            subtract: false,
            half_carry: (a & 0xF) + (value & 0xF) + carry_in > 0xF,
            carry: sum > 0xFF,
        };
        self.registers.a = new_value;
    }

    /// Subtracts `value` from A and sets the flags from the 8-bit subtraction.
    pub fn sub_constant(&mut self, value: u8)
        ensures
            final(self)@ == old(self)@.with_accumulator(sub_result(old(self).registers.a, value)),
    {
        let a = self.registers.a;
        proof {
            lemma_low_nibble(a);
            lemma_low_nibble(value);
        }
        let new_value = a.wrapping_sub(value);
        self.registers.f = FlagRegister {
            zero: new_value == 0,
            subtract: true,
            half_carry: (a & 0xF) < (value & 0xF),
            carry: a < value,
        };
        self.registers.a = new_value;
    }

    /// Adds `value` to HL and sets the flags from the 16-bit addition.
    pub fn add_constant_16(&mut self, value: u16)
        ensures
            ({
                let (sum, flags) = add16_result(old(self).registers.hl(), value);
                final(self)@ == (CpuModel {
                    registers: Registers { f: flags, ..old(self).registers.with_hl(sum) },
                    ..old(self)@
                })
            }),
    {
        let hl = self.registers.get_hl();
        let sum: u32 = hl as u32 + value as u32;
        proof {
            lemma_low_twelve_bits(hl);
            lemma_low_twelve_bits(value);
        }
        let new_value = hl.wrapping_add(value);
        self.registers.f = FlagRegister {
            zero: new_value == 0,
            subtract: false,
            half_carry: (hl & 0xFFF) + (value & 0xFFF) > 0xFFF,
            carry: sum > 0xFFFF,
        };
        self.registers.set_hl(new_value);
    }
}

} // verus!
