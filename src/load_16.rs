use vstd::prelude::*;
use crate::cpu::CPU;
use crate::instructions::{Instruction, PushPopTarget, RegisterTarget16};

verus! {

impl CPU {
    /// RR <- NN, NN read at PC.
    pub fn load_register16_nn(&mut self, target: RegisterTarget16)
        ensures
            final(self)@ == old(self)@.execute(Instruction::LoadRegister16Nn(target)),
    {
        let nn = self.read_word_and_increment_pc();
        self.set_register_value_16(target, nn);
    }

    /// (NN) <- SP as a little-endian word, NN read at PC.
    pub fn load_nn_from_stack_pointer(&mut self)
        ensures
            final(self)@ == old(self)@.execute(Instruction::LoadNnFromStackPointer),
    {
        let nn_address = self.read_word_and_increment_pc();
        let stack_pointer = self.stack_pointer;
        self.bus.write_word(nn_address, stack_pointer);
    }

    /// SP <- HL.
    pub fn load_stack_pointer_from_hl(&mut self)
        ensures
            final(self)@ == old(self)@.execute(Instruction::LoadStackPointerFromHl),
    {
        let hl_value = self.registers.get_hl();
        self.stack_pointer = hl_value;
    }

    /// SP <- SP - 2, then (SP) <- RR as a little-endian word.
    pub fn push_from_register(&mut self, source: PushPopTarget)
        ensures
            final(self)@ == old(self)@.execute(Instruction::PushFromRegister(source)),
    {
        let new_stack_pointer = self.stack_pointer.wrapping_sub(2);
        let value = self.get_push_pop_target_value(source);
        self.bus.write_word(new_stack_pointer, value);
        self.stack_pointer = new_stack_pointer;
    }

    /// RR <- the little-endian word at SP, then SP <- SP + 2.
    pub fn pop_into_register(&mut self, target: PushPopTarget)
        ensures
            final(self)@ == old(self)@.execute(Instruction::PopIntoRegister(target)),
    {
        let stack_pointer = self.stack_pointer;
        let value = self.bus.read_word(stack_pointer);
        self.set_push_pop_target_value(target, value);
        self.stack_pointer = stack_pointer.wrapping_add(2);
    }
}

} // verus!
