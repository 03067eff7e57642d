use vstd::prelude::*;
use crate::cpu::CPU;
use crate::instructions::{PushPopTarget, RegisterTarget, RegisterTarget16};
use crate::util::join_u8;
#[allow(unused_imports)]
use crate::util::wrap16;

verus! {

impl CPU {
    /// Reads the byte at PC and moves PC past it.
    pub fn read_byte_and_increment_pc(&mut self) -> (r: u8)
        ensures
            r == old(self)@.immediate8(),
            final(self)@ == old(self)@.advance_pc(1),
    {
        let address = self.program_counter;
        self.program_counter = address.wrapping_add(1);
        self.bus.read_byte(address)
    }

    /// Reads the little-endian word at PC and moves PC past it.
    pub fn read_word_and_increment_pc(&mut self) -> (r: u16)
        ensures
            r == old(self)@.immediate16(),
            final(self)@ == old(self)@.advance_pc(2),
    {
        let lsb = self.read_byte_and_increment_pc();
        let msb = self.read_byte_and_increment_pc();
        assert(wrap16(wrap16(old(self).program_counter + 1) + 1) == wrap16(old(self).program_counter + 2));
        join_u8(msb, lsb)
    }

    pub fn get_register_value(&self, target: RegisterTarget) -> (r: u8)
        ensures
            r == self.registers.get(target),
    {
        match target {
            RegisterTarget::A => self.registers.a,
            RegisterTarget::B => self.registers.b,
            RegisterTarget::C => self.registers.c,
            RegisterTarget::D => self.registers.d,
            RegisterTarget::E => self.registers.e,
            RegisterTarget::H => self.registers.h,
            RegisterTarget::L => self.registers.l,
        }
    }

    /// A mutable borrow of an 8-bit register.
    pub fn get_register_pointer(&mut self, target: RegisterTarget) -> (r: &mut u8)
        ensures
            *r == old(self).registers.get(target),
            final(self)@ == old(self)@.with_register(target, *final(r)),
    {
        match target {
            RegisterTarget::A => &mut self.registers.a,
            RegisterTarget::B => &mut self.registers.b,
            RegisterTarget::C => &mut self.registers.c,
            RegisterTarget::D => &mut self.registers.d,
            RegisterTarget::E => &mut self.registers.e,
            RegisterTarget::H => &mut self.registers.h,
            RegisterTarget::L => &mut self.registers.l,
        }
    }

    pub fn set_register_value(&mut self, target: RegisterTarget, value: u8)
        ensures
            final(self)@ == old(self)@.with_register(target, value),
    {
        *self.get_register_pointer(target) = value;
    }

    pub fn get_register_value_16(&self, target: RegisterTarget16) -> (r: u16)
        ensures
            r == self@.register16(target),
    {
        match target {
            RegisterTarget16::BC => self.registers.get_bc(),
            RegisterTarget16::DE => self.registers.get_de(),
            RegisterTarget16::HL => self.registers.get_hl(),
            RegisterTarget16::SP => self.stack_pointer,
        }
    }

    pub fn set_register_value_16(&mut self, target: RegisterTarget16, value: u16)
        ensures
            final(self)@ == old(self)@.with_register16(target, value),
    {
        match target {
            RegisterTarget16::BC => self.registers.set_bc(value),
            RegisterTarget16::DE => self.registers.set_de(value),
            RegisterTarget16::HL => self.registers.set_hl(value),
            RegisterTarget16::SP => self.stack_pointer = value,
        }
    }

    pub fn get_push_pop_target_value(&self, target: PushPopTarget) -> (r: u16)
        ensures
            r == self@.pair(target),
    {
        match target {
            PushPopTarget::AF => self.registers.get_af(),
            PushPopTarget::BC => self.registers.get_bc(),
            PushPopTarget::DE => self.registers.get_de(),
            PushPopTarget::HL => self.registers.get_hl(),
        }
    }

    pub fn set_push_pop_target_value(&mut self, target: PushPopTarget, value: u16)
        ensures
            final(self)@ == old(self)@.with_pair(target, value),
    {
        match target {
            PushPopTarget::AF => self.registers.set_af(value),
            PushPopTarget::BC => self.registers.set_bc(value),
            PushPopTarget::DE => self.registers.set_de(value),
            PushPopTarget::HL => self.registers.set_hl(value),
        }
    }
}

impl RegisterTarget16 {
    /// The (high, low) 8-bit registers of a register pair; SP has none.
    pub fn get_8_bit_targets(self) -> (r: Option<(RegisterTarget, RegisterTarget)>)
        ensures
            r == match self {
                RegisterTarget16::BC => Some((RegisterTarget::B, RegisterTarget::C)),
                RegisterTarget16::DE => Some((RegisterTarget::D, RegisterTarget::E)),
                RegisterTarget16::HL => Some((RegisterTarget::H, RegisterTarget::L)),
                RegisterTarget16::SP => None,
            },
    {
        match self {
            RegisterTarget16::BC => Some((RegisterTarget::B, RegisterTarget::C)),
            RegisterTarget16::DE => Some((RegisterTarget::D, RegisterTarget::E)),
            RegisterTarget16::HL => Some((RegisterTarget::H, RegisterTarget::L)),
            RegisterTarget16::SP => None,
        }
    }
}

} // verus!
