use vstd::prelude::*;
use crate::cpu::CPU;
use crate::instructions::{Instruction, RegisterTarget};
use crate::model::high_page;
use crate::util::join_u8;

verus! {

/// The high-page address 0xFF00 + `lsb_address`.
pub fn get_absolute_address_from_lsb(lsb_address: u8) -> (r: u16)
    ensures
        r == high_page(lsb_address),
        r == 0xFF00 + lsb_address,
{
    join_u8(0xFF, lsb_address)
}

impl CPU {
    /// `receiver` <- `source`.
    pub fn ld_r_r(&mut self, source: RegisterTarget, receiver: RegisterTarget)
        ensures
            final(self)@ == old(self)@.execute(Instruction::LoadRegisterRegister(receiver, source)),
    {
        let value = self.get_register_value(source);
        self.set_register_value(receiver, value);
    }

    /// R <- N, N read at PC.
    pub fn ld_r_n(&mut self, target: RegisterTarget)
        ensures
            final(self)@ == old(self)@.execute(Instruction::LoadRegisterN(target)),
    {
        let n = self.read_byte_and_increment_pc();
        self.set_register_value(target, n);
    }

    /// R <- (HL).
    pub fn ld_r_hl(&mut self, target: RegisterTarget)
        ensures
            final(self)@ == old(self)@.execute(Instruction::LoadRegisterIndirectHl(target)),
    {
        let address = self.registers.get_hl();
        let value = self.bus.read_byte(address);
        self.set_register_value(target, value);
    }

    /// (HL) <- R.
    pub fn ld_hl_r(&mut self, source: RegisterTarget)
        ensures
            final(self)@ == old(self)@.execute(Instruction::LoadIndirectHlRegister(source)),
    {
        let value = self.get_register_value(source);
        let address = self.registers.get_hl();
        self.bus.write_byte(address, value);
    }

    /// (HL) <- N, N read at PC.
    pub fn ld_hl_n(&mut self)
        ensures
            final(self)@ == old(self)@.execute(Instruction::LoadIndirectHlN),
    {
        let address = self.registers.get_hl();
        let n = self.read_byte_and_increment_pc();
        self.bus.write_byte(address, n);
    }

    /// A <- (BC).
    pub fn ld_a_bc(&mut self)
        ensures
            final(self)@ == old(self)@.execute(Instruction::LoadAIndirectBc),
    {
        let address = self.registers.get_bc();
        let value = self.bus.read_byte(address);
        self.registers.a = value;
    }

    /// A <- (DE).
    pub fn ld_a_de(&mut self)
        ensures
            final(self)@ == old(self)@.execute(Instruction::LoadAIndirectDe),
    {
        let address = self.registers.get_de();
        let value = self.bus.read_byte(address);
        self.registers.a = value;
    }

    /// (BC) <- A.
    pub fn ld_bc_a(&mut self)
        ensures
            final(self)@ == old(self)@.execute(Instruction::LoadIndirectBcA),
    {
        let address = self.registers.get_bc();
        let value = self.registers.a;
        self.bus.write_byte(address, value);
    }

    /// (DE) <- A.
    pub fn ld_de_a(&mut self)
        ensures
            final(self)@ == old(self)@.execute(Instruction::LoadIndirectDeA),
    {
        let address = self.registers.get_de();
        let value = self.registers.a;
        self.bus.write_byte(address, value);
    }

    /// A <- (NN), NN read at PC.
    pub fn ld_a_nn(&mut self)
        ensures
            final(self)@ == old(self)@.execute(Instruction::LoadANn),
    {
        let address = self.read_word_and_increment_pc();
        let value = self.bus.read_byte(address);
        self.registers.a = value;
    }

    /// (NN) <- A, NN read at PC.
    pub fn ld_nn_a(&mut self)
        ensures
            final(self)@ == old(self)@.execute(Instruction::LoadNnA),
    {
        let value = self.registers.a;
        let address = self.read_word_and_increment_pc();
        self.bus.write_byte(address, value);
    }

    /// A <- (0xFF00 + C).
    pub fn ld_h_a_c(&mut self)
        ensures
            final(self)@ == old(self)@.execute(Instruction::LoadHalfAC),
    {
        let address = get_absolute_address_from_lsb(self.registers.c);
        let value = self.bus.read_byte(address);
        self.registers.a = value;
    }

    /// (0xFF00 + C) <- A.
    pub fn ld_h_c_a(&mut self)
        ensures
            final(self)@ == old(self)@.execute(Instruction::LoadHalfCA),
    {
        let address = get_absolute_address_from_lsb(self.registers.c);
        let value = self.registers.a;
        self.bus.write_byte(address, value);
    }

    /// A <- (0xFF00 + N), N read at PC.
    pub fn ld_h_a_n(&mut self)
        ensures
            final(self)@ == old(self)@.execute(Instruction::LoadHalfAN),
    {
        let lsb_address = self.read_byte_and_increment_pc();
        let value = self.bus.read_byte(get_absolute_address_from_lsb(lsb_address));
        self.registers.a = value;
    }

    /// (0xFF00 + N) <- A, N read at PC.
    pub fn ld_h_n_a(&mut self)
        ensures
            final(self)@ == old(self)@.execute(Instruction::LoadHalfNA),
    {
        let lsb_address = self.read_byte_and_increment_pc();
        let value = self.registers.a;
        self.bus.write_byte(get_absolute_address_from_lsb(lsb_address), value);
    }

    /// A <- (HL), then HL <- HL - 1.
    pub fn ld_a_hl_dec(&mut self)
        ensures
            final(self)@ == old(self)@.execute(Instruction::LoadAIndirectHlDecrement),
    {
        let address = self.registers.get_hl();
        let value = self.bus.read_byte(address);
        self.registers.a = value;
        self.registers.set_hl(address.wrapping_sub(1));
    }

    /// (HL) <- A, then HL <- HL - 1.
    pub fn ld_hl_dec_a(&mut self)
        ensures
            final(self)@ == old(self)@.execute(Instruction::LoadIndirectHlDecrementA),
    {
        let address = self.registers.get_hl();
        let value = self.registers.a;
        self.bus.write_byte(address, value);
        self.registers.set_hl(address.wrapping_sub(1));
    }

    /// A <- (HL), then HL <- HL + 1.
    pub fn ld_a_hl_inc(&mut self)
        ensures
            final(self)@ == old(self)@.execute(Instruction::LoadAIndirectHlIncrement),
    {
        let address = self.registers.get_hl();
        let value = self.bus.read_byte(address);
        self.registers.a = value;
        self.registers.set_hl(address.wrapping_add(1));
    }

    /// (HL) <- A, then HL <- HL + 1.
    pub fn ld_hl_inc_a(&mut self)
        ensures
            final(self)@ == old(self)@.execute(Instruction::LoadIndirectHlIncrementA),
    {
        let address = self.registers.get_hl();
        let value = self.registers.a;
        self.bus.write_byte(address, value);
        self.registers.set_hl(address.wrapping_add(1));
    }
}

} // verus!
