use vstd::prelude::*;
use crate::decode::{decode, DecodeTables};
use crate::instructions::Instruction;
use crate::memory::MemoryBus;
use crate::model::CpuModel;
use crate::registers::{flags_from_byte, Registers};

verus! {

/// The execute engine: the register file, the program counter, the stack pointer,
/// the memory bus, and the decode tables. Its view is the `CpuModel` of the first
/// four.
#[derive(Debug)]
pub struct CPU {
    pub registers: Registers,
    pub program_counter: u16,
    pub stack_pointer: u16,
    pub bus: MemoryBus,
    pub tables: DecodeTables,
}

/// The error of a step on an opcode that no instruction implements.
#[derive(Clone, Copy, Debug, PartialEq, Eq, Structural)]
pub struct UnknownInstruction {
    /// The opcode byte (after the prefix, when there is one).
    pub opcode: u8,
    /// Whether the opcode followed a 0xCB prefix.
    pub prefixed: bool,
}

impl View for CPU {
    type V = CpuModel;

    open spec fn view(&self) -> CpuModel {
        CpuModel {
            registers: self.registers,
            program_counter: self.program_counter,
            stack_pointer: self.stack_pointer,
            memory: self.bus@,
        }
    }
}

impl CPU {
    /// A machine with every register, flag, memory byte, PC and SP zero.
    pub fn new() -> (r: CPU)
        ensures
            r@ == (CpuModel {
                registers: Registers {
                    a: 0,
                    b: 0,
                    c: 0,
                    d: 0,
                    e: 0,
                    f: flags_from_byte(0),
                    h: 0,
                    l: 0,
                },
                program_counter: 0,
                stack_pointer: 0,
                memory: Seq::new(0x10000, |i: int| 0u8),
            }),
    {
        CPU {
            registers: Registers::new(),
            program_counter: 0,
            stack_pointer: 0,
            bus: MemoryBus::new(),
            tables: DecodeTables::new(),
        }
    }

    /// Runs one fetch-decode-execute cycle. On an opcode that is not implemented it
    /// returns the opcode and its prefix state, and leaves the machine unchanged.
    pub fn step(&mut self) -> (r: Result<(), UnknownInstruction>)
        ensures
            match old(self)@.step() {
                Some(next) => r is Ok && final(self)@ == next,
                None => {
                    &&& r == Err::<(), UnknownInstruction>(
                        UnknownInstruction {
                            opcode: old(self)@.fetched_opcode().0,
                            prefixed: old(self)@.fetched_opcode().1,
                        },
                    )
                    &&& final(self)@ == old(self)@
                },
            },
    {
        let pc = self.program_counter;
        let first = self.bus.read_byte(pc);
        let is_prefixed = first == 0xCB;
        let (opcode, next_pc) = if is_prefixed {
            (self.bus.read_byte(pc.wrapping_add(1)), pc.wrapping_add(2))
        } else {
            (first, pc.wrapping_add(1))
        };
        match self.tables.from_byte(opcode, is_prefixed) {
            Some(instruction) => {
                self.program_counter = next_pc;
                self.execute(instruction);
                Ok(())
            },
            None => Err(UnknownInstruction { opcode, prefixed: is_prefixed }),
        }
    }

    /// Executes one decoded instruction; PC is already past its opcode.
    pub fn execute(&mut self, instruction: Instruction)
        ensures
            final(self)@ == old(self)@.execute(instruction),
    {
        match instruction {
            Instruction::AddRegister(target) => self.add_r(target),
            Instruction::AddIndirectHl => self.add_hl(),
            Instruction::AddN => self.add_n(),
            Instruction::AddCarryRegister(target) => self.adc_r(target),
            Instruction::AdcIndirectHl => self.adc_hl(),
            Instruction::AddCarryN => self.adc_n(),
            Instruction::SubRegister(target) => self.sub_r(target),
            Instruction::SubIndirectHl => self.sub_hl(),
            Instruction::SubN => self.sub_n(),
            Instruction::AddHlRegister16(target) => self.add_hl_rr(target),
            Instruction::LoadRegisterRegister(receiver, source) => self.ld_r_r(source, receiver),
            Instruction::LoadRegisterN(receiver) => self.ld_r_n(receiver),
            Instruction::LoadRegisterIndirectHl(receiver) => self.ld_r_hl(receiver),
            Instruction::LoadIndirectHlRegister(source) => self.ld_hl_r(source),
            Instruction::LoadIndirectHlN => self.ld_hl_n(),
            Instruction::LoadAIndirectBc => self.ld_a_bc(),
            Instruction::LoadAIndirectDe => self.ld_a_de(),
            Instruction::LoadIndirectBcA => self.ld_bc_a(),
            Instruction::LoadIndirectDeA => self.ld_de_a(),
            Instruction::LoadANn => self.ld_a_nn(),
            Instruction::LoadNnA => self.ld_nn_a(),
            Instruction::LoadHalfAC => self.ld_h_a_c(),
            Instruction::LoadHalfCA => self.ld_h_c_a(),
            Instruction::LoadHalfAN => self.ld_h_a_n(),
            Instruction::LoadHalfNA => self.ld_h_n_a(),
            Instruction::LoadAIndirectHlDecrement => self.ld_a_hl_dec(),
            Instruction::LoadIndirectHlDecrementA => self.ld_hl_dec_a(),
            Instruction::LoadAIndirectHlIncrement => self.ld_a_hl_inc(),
            Instruction::LoadIndirectHlIncrementA => self.ld_hl_inc_a(),
            Instruction::LoadRegister16Nn(target) => self.load_register16_nn(target),
            Instruction::LoadNnFromStackPointer => self.load_nn_from_stack_pointer(),
            Instruction::LoadStackPointerFromHl => self.load_stack_pointer_from_hl(),
            Instruction::PushFromRegister(source) => self.push_from_register(source),
            Instruction::PopIntoRegister(target) => self.pop_into_register(target),
            Instruction::JumpToNn => self.jump_to_nn(),
            Instruction::JumpConditionalToNn(condition) => self.jump_conditional_to_nn(condition),
        }
    }
}

} // verus!
