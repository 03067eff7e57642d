use vstd::prelude::*;
use crate::cpu::CPU;
use crate::instructions::{Instruction, JumpCondition};
use crate::model::CpuModel;
use crate::util::join_u8;

verus! {

impl CPU {
    /// PC <- NN when the condition holds of the flags; otherwise PC moves past NN.
    pub fn jump_conditional_to_nn(&mut self, jump_condition: JumpCondition)
        ensures
            final(self)@ == old(self)@.execute(Instruction::JumpConditionalToNn(jump_condition)),
    {
        let should_jump = match jump_condition {
            JumpCondition::NotZero => !self.registers.f.zero,
            JumpCondition::Zero => self.registers.f.zero,
            JumpCondition::NotCarry => !self.registers.f.carry,
            JumpCondition::Carry => self.registers.f.carry,
        };
        self.jump(should_jump)
    }

    /// PC <- NN.
    pub fn jump_to_nn(&mut self)
        ensures
            final(self)@ == old(self)@.execute(Instruction::JumpToNn),
    {
        self.jump(true);
    }

    /// Follows the address at PC when `should_jump`, else skips over it.
    fn jump(&mut self, should_jump: bool)
        ensures
            final(self)@ == if should_jump {
                CpuModel { program_counter: old(self)@.immediate16(), ..old(self)@ }
            } else {
                old(self)@.advance_pc(2)
            },
    {
        if should_jump {
            self.jump_to_pc_pointed_address();
        } else {
            self.program_counter = self.program_counter.wrapping_add(2);
        }
    }

    /// PC <- the little-endian word at PC.
    fn jump_to_pc_pointed_address(&mut self)
        ensures
            final(self)@ == (CpuModel { program_counter: old(self)@.immediate16(), ..old(self)@ }),
    {
        let lsb_address = self.bus.read_byte(self.program_counter);
        let msb_address = self.bus.read_byte(self.program_counter.wrapping_add(1));
        self.program_counter = join_u8(msb_address, lsb_address);
    }
}

} // verus!
