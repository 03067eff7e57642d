use gb_core::cpu::{UnknownInstruction, CPU};
use gb_core::decode::{init_instruction_array, DecodeTables};
use gb_core::instructions::{Instruction, JumpCondition, PushPopTarget, RegisterTarget, RegisterTarget16};
use gb_core::load_8::get_absolute_address_from_lsb;
use gb_core::memory::MemoryBus;
use gb_core::registers::{FlagRegister, Registers};
use gb_core::util::Randomizable;

fn flags(zero: bool, subtract: bool, half_carry: bool, carry: bool) -> FlagRegister {
    FlagRegister { zero, subtract, half_carry, carry }
}

#[test]
fn add_flags_follow_the_full_sum() {
    let mut cpu = CPU::new();
    cpu.registers.a = 0x3A;
    cpu.add_constant(0xC6);
    assert_eq!(0x00, cpu.registers.a);
    assert_eq!(flags(true, false, true, true), cpu.registers.f);

    let mut cpu = CPU::new();
    cpu.registers.a = 0x08;
    cpu.registers.f = flags(true, true, false, true);
    cpu.add_constant(0x08);
    assert_eq!(0x10, cpu.registers.a);
    assert_eq!(flags(false, false, true, false), cpu.registers.f);

    let mut cpu = CPU::new();
    cpu.registers.a = 0xF0;
    cpu.add_constant(0x20);
    assert_eq!(0x10, cpu.registers.a);
    assert_eq!(flags(false, false, false, true), cpu.registers.f);
}

#[test]
fn add_with_carry_matches_add_of_operand_plus_carry() {
    for a in [0x00u8, 0x0F, 0x3C, 0x80, 0xFF] {
        for b in [0x00u8, 0x01, 0x0E, 0x22, 0xF0, 0xFE] {
            for carry_in in [false, true] {
                let mut with_carry = CPU::new();
                with_carry.registers.a = a;
                with_carry.registers.f.carry = carry_in;
                with_carry.add_constant_carry(b);

                let mut plain = CPU::new();
                plain.registers.a = a;
                plain.add_constant(b + carry_in as u8);

                assert_eq!(plain.registers.a, with_carry.registers.a);
                assert_eq!(plain.registers.f, with_carry.registers.f);
            }
        }
    }
}

#[test]
fn add_with_carry_counts_the_carry_in_the_half_carry() {
    let mut cpu = CPU::new();
    cpu.registers.a = 0xE1;
    cpu.registers.f.carry = true;
    cpu.add_constant_carry(0x0F);
    assert_eq!(0xF1, cpu.registers.a);
    assert_eq!(flags(false, false, true, false), cpu.registers.f);

    let mut cpu = CPU::new();
    cpu.registers.a = 0x00;
    cpu.registers.f.carry = true;
    cpu.add_constant_carry(0xFF);
    assert_eq!(0x00, cpu.registers.a);
    assert_eq!(flags(true, false, true, true), cpu.registers.f);
}

#[test]
fn subtract_sets_borrow_flags() {
    let mut cpu = CPU::new();
    cpu.registers.a = 0x3E;
    cpu.sub_constant(0x3E);
    assert_eq!(0x00, cpu.registers.a);
    assert_eq!(flags(true, true, false, false), cpu.registers.f);

    let mut cpu = CPU::new();
    cpu.registers.a = 0x3E;
    cpu.sub_constant(0x40);
    assert_eq!(0xFE, cpu.registers.a);
    assert_eq!(flags(false, true, false, true), cpu.registers.f);

    let mut cpu = CPU::new();
    cpu.registers.a = 0x3E;
    cpu.sub_constant(0x0F);
    assert_eq!(0x2F, cpu.registers.a);
    assert_eq!(flags(false, true, true, false), cpu.registers.f);
}

#[test]
fn sub_instructions_read_their_operands() {
    let mut cpu = CPU::new();
    cpu.registers.a = 0x50;
    cpu.registers.d = 0x20;
    cpu.sub_r(RegisterTarget::D);
    assert_eq!(0x30, cpu.registers.a);

    cpu.registers.set_hl(0x4000);
    cpu.bus.write_byte(0x4000, 0x31);
    cpu.sub_hl();
    assert_eq!(0xFF, cpu.registers.a);
    assert_eq!(flags(false, true, true, true), cpu.registers.f);

    cpu.program_counter = 0x0100;
    cpu.bus.write_byte(0x0100, 0x0F);
    cpu.sub_n();
    assert_eq!(0xF0, cpu.registers.a);
    assert_eq!(0x0101, cpu.program_counter);
}

#[test]
fn flag_byte_round_trip_keeps_the_top_nibble() {
    for v in 0..=255u8 {
        assert_eq!(v & 0xF0, FlagRegister::from(v).to_byte());
    }
    assert_eq!(0b1010_0000, flags(true, false, true, false).to_byte());
    assert_eq!(flags(false, true, false, true), FlagRegister::from(0b0101_1111));
}

#[test]
fn af_keeps_only_the_top_nibble_of_its_low_byte() {
    let mut registers = Registers::new();
    registers.set_af(0x12FF);
    assert_eq!(0x12, registers.a);
    assert_eq!(flags(true, true, true, true), registers.f);
    assert_eq!(0x12F0, registers.get_af());
}

#[test]
fn word_write_then_read_round_trips() {
    let mut bus = MemoryBus::new();
    for (address, word) in [(0x0000u16, 0xBEEFu16), (0x1234, 0x0102), (0xFFFE, 0xA55A), (0xFFFF, 0x1234)] {
        bus.write_word(address, word);
        assert_eq!(word, bus.read_word(address));
    }
    assert_eq!(0x34, bus.read_byte(0xFFFF));
    assert_eq!(0x12, bus.read_byte(0x0000));
}

#[test]
fn hl_increment_and_decrement_wrap() {
    let mut cpu = CPU::new();
    cpu.registers.set_hl(0xFFFF);
    cpu.bus.write_byte(0xFFFF, 0x77);
    cpu.ld_a_hl_inc();
    assert_eq!(0x0000, cpu.registers.get_hl());
    assert_eq!(0x77, cpu.registers.a);

    let mut cpu = CPU::new();
    cpu.registers.set_hl(0x0000);
    cpu.bus.write_byte(0x0000, 0x66);
    cpu.ld_a_hl_dec();
    assert_eq!(0xFFFF, cpu.registers.get_hl());
    assert_eq!(0x66, cpu.registers.a);

    let mut cpu = CPU::new();
    cpu.registers.set_hl(0x0000);
    cpu.registers.a = 0x42;
    cpu.ld_hl_dec_a();
    assert_eq!(0xFFFF, cpu.registers.get_hl());
    assert_eq!(0x42, cpu.bus.read_byte(0x0000));
}

#[test]
fn conditional_jump_follows_or_skips_the_address() {
    let mut cpu = CPU::new();
    cpu.program_counter = 0x1234;
    cpu.bus.write_byte(0x1234, 0x56);
    cpu.bus.write_byte(0x1235, 0x78);
    cpu.registers.f.zero = false;
    cpu.jump_conditional_to_nn(JumpCondition::NotZero);
    assert_eq!(0x7856, cpu.program_counter);

    let mut cpu = CPU::new();
    cpu.program_counter = 0x1234;
    cpu.bus.write_byte(0x1234, 0x56);
    cpu.bus.write_byte(0x1235, 0x78);
    cpu.registers.f.zero = true;
    cpu.jump_conditional_to_nn(JumpCondition::NotZero);
    assert_eq!(0x1236, cpu.program_counter);
}

#[test]
fn push_then_pop_restores_the_pair_and_stack_pointer() {
    let targets = [PushPopTarget::AF, PushPopTarget::BC, PushPopTarget::DE, PushPopTarget::HL];
    for target in targets {
        for value in [0x0000u16, 0x1230, 0xFFF0, 0xABCD, 0xFFFF] {
            let value = if target == PushPopTarget::AF { value & 0xFFF0 } else { value };
            for sp in [0x0000u16, 0x0001, 0xC000, 0xFFFE] {
                let mut cpu = CPU::new();
                cpu.stack_pointer = sp;
                cpu.set_push_pop_target_value(target, value);
                cpu.push_from_register(target);
                assert_eq!(sp.wrapping_sub(2), cpu.stack_pointer);
                cpu.set_push_pop_target_value(target, 0x0000);
                cpu.pop_into_register(target);
                assert_eq!(value, cpu.get_push_pop_target_value(target));
                assert_eq!(sp, cpu.stack_pointer);
            }
        }
    }
}

#[test]
fn pop_into_af_clears_the_low_nibble() {
    let mut cpu = CPU::new();
    cpu.stack_pointer = 0xD000;
    cpu.bus.write_word(0xD000, 0x12FF);
    cpu.pop_into_register(PushPopTarget::AF);
    assert_eq!(0x12F0, cpu.registers.get_af());
    assert_eq!(0xD002, cpu.stack_pointer);
}

#[test]
fn decode_table_entries_are_distinct() {
    let table = init_instruction_array();
    let mut implemented = 0;
    for i in 0..256 {
        if let Some(first) = table[i] {
            implemented += 1;
            for j in (i + 1)..256 {
                assert_ne!(Some(first), table[j]);
            }
        }
    }
    assert_eq!(135, implemented);
}

#[test]
fn decode_follows_the_opcode_fields() {
    let tables = DecodeTables::new();
    assert_eq!(
        Some(Instruction::LoadRegisterRegister(RegisterTarget::B, RegisterTarget::C)),
        tables.from_byte(0x41, false)
    );
    assert_eq!(Some(Instruction::LoadRegisterIndirectHl(RegisterTarget::A)), tables.from_byte(0x7E, false));
    assert_eq!(Some(Instruction::LoadIndirectHlRegister(RegisterTarget::L)), tables.from_byte(0x75, false));
    assert_eq!(None, tables.from_byte(0x76, false));
    assert_eq!(Some(Instruction::AddCarryRegister(RegisterTarget::A)), tables.from_byte(0x8F, false));
    assert_eq!(Some(Instruction::SubIndirectHl), tables.from_byte(0x96, false));
    assert_eq!(Some(Instruction::LoadRegister16Nn(RegisterTarget16::SP)), tables.from_byte(0x31, false));
    assert_eq!(Some(Instruction::AddHlRegister16(RegisterTarget16::DE)), tables.from_byte(0x19, false));
    assert_eq!(Some(Instruction::PushFromRegister(PushPopTarget::AF)), tables.from_byte(0xF5, false));
    assert_eq!(Some(Instruction::JumpConditionalToNn(JumpCondition::Carry)), tables.from_byte(0xDA, false));
    assert_eq!(None, tables.from_byte(0x00, false));
    assert_eq!(None, tables.from_byte(0xCB, false));
    for byte in 0..=255u8 {
        assert_eq!(None, tables.from_byte(byte, true));
    }
}

#[test]
fn add_immediate_end_to_end() {
    let mut cpu = CPU::new();
    cpu.registers.a = 0x0F;
    cpu.bus.write_byte(0x0000, 0x0F);
    cpu.add_n();
    assert_eq!(0x1E, cpu.registers.a);
    assert_eq!(flags(false, false, true, false), cpu.registers.f);
    assert_eq!(0x0001, cpu.program_counter);
}

#[test]
fn step_fetches_decodes_and_executes() {
    let mut cpu = CPU::new();
    cpu.registers.a = 0x0F;
    cpu.bus.write_byte(0x0000, 0xC6);
    cpu.bus.write_byte(0x0001, 0x0F);
    assert_eq!(Ok(()), cpu.step());
    assert_eq!(0x1E, cpu.registers.a);
    assert_eq!(flags(false, false, true, false), cpu.registers.f);
    assert_eq!(0x0002, cpu.program_counter);

    cpu.bus.write_byte(0x0002, 0x3E);
    cpu.bus.write_byte(0x0003, 0x42);
    cpu.bus.write_byte(0x0004, 0x47);
    assert_eq!(Ok(()), cpu.step());
    assert_eq!(Ok(()), cpu.step());
    assert_eq!(0x42, cpu.registers.a);
    assert_eq!(0x42, cpu.registers.b);
    assert_eq!(0x0005, cpu.program_counter);
}

#[test]
fn step_reports_an_unknown_opcode_and_changes_nothing() {
    let mut cpu = CPU::new();
    cpu.program_counter = 0x0200;
    cpu.registers.a = 0x12;
    cpu.bus.write_byte(0x0200, 0xCB);
    cpu.bus.write_byte(0x0201, 0x37);
    assert_eq!(Err(UnknownInstruction { opcode: 0x37, prefixed: true }), cpu.step());
    assert_eq!(0x0200, cpu.program_counter);
    assert_eq!(0x12, cpu.registers.a);

    cpu.bus.write_byte(0x0200, 0xD3);
    assert_eq!(Err(UnknownInstruction { opcode: 0xD3, prefixed: false }), cpu.step());
    assert_eq!(0x0200, cpu.program_counter);
}

#[test]
fn add_hl_half_carry_is_out_of_bit_eleven() {
    let mut cpu = CPU::new();
    cpu.registers.set_hl(0x0FFF);
    cpu.registers.set_de(0x0001);
    cpu.add_hl_rr(RegisterTarget16::DE);
    assert_eq!(0x1000, cpu.registers.get_hl());
    assert_eq!(flags(false, false, true, false), cpu.registers.f);

    let mut cpu = CPU::new();
    cpu.registers.set_hl(0x00FF);
    cpu.stack_pointer = 0x0001;
    cpu.add_hl_rr(RegisterTarget16::SP);
    assert_eq!(0x0100, cpu.registers.get_hl());
    assert_eq!(flags(false, false, false, false), cpu.registers.f);
}

#[test]
fn stack_pointer_store_writes_a_little_endian_word() {
    let mut cpu = CPU::new();
    cpu.stack_pointer = 0xFFF8;
    cpu.bus.write_byte(0x0000, 0x00);
    cpu.bus.write_byte(0x0001, 0xC1);
    cpu.load_nn_from_stack_pointer();
    assert_eq!(0xF8, cpu.bus.read_byte(0xC100));
    assert_eq!(0xFF, cpu.bus.read_byte(0xC101));
    assert_eq!(0x0002, cpu.program_counter);
}

#[test]
fn high_page_addresses() {
    assert_eq!(0xFF00, get_absolute_address_from_lsb(0x00));
    assert_eq!(0xFFFF, get_absolute_address_from_lsb(0xFF));
}

#[test]
fn pair_halves() {
    assert_eq!(Some((RegisterTarget::B, RegisterTarget::C)), RegisterTarget16::BC.get_8_bit_targets());
    assert_eq!(Some((RegisterTarget::H, RegisterTarget::L)), RegisterTarget16::HL.get_8_bit_targets());
    assert_eq!(None, RegisterTarget16::SP.get_8_bit_targets());
}

#[test]
fn random_values_are_never_zero() {
    for _ in 0..100 {
        assert!(u8::random() >= 1);
        assert!(u16::random() >= 1);
    }
}

#[test]
fn decode_function_agrees_with_the_tables() {
    let tables = DecodeTables::new();
    for byte in 0..=255u8 {
        for prefixed in [false, true] {
            assert_eq!(tables.from_byte(byte, prefixed), Instruction::from_byte(byte, prefixed));
        }
    }
    assert_eq!(Some(Instruction::LoadHalfAC), Instruction::from_byte(0xF2, false));
    assert_eq!(None, Instruction::from_byte(0xF2, true));
}
