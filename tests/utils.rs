use gb_core::cpu::CPU;
use gb_core::instructions::{RegisterTarget, RegisterTarget16};
use gb_core::util::{join_u8, Randomizable};

const REGISTERS: [RegisterTarget; 7] = [
    RegisterTarget::A,
    RegisterTarget::B,
    RegisterTarget::C,
    RegisterTarget::D,
    RegisterTarget::E,
    RegisterTarget::H,
    RegisterTarget::L,
];

const REGISTERS_16: [RegisterTarget16; 4] =
    [RegisterTarget16::BC, RegisterTarget16::DE, RegisterTarget16::HL, RegisterTarget16::SP];

#[test]
fn utils_test_read_and_increment_pc() {
    let mut cpu = CPU::new();
    let address = 0xFFFF;
    let value = 0x12;
    cpu.program_counter = address;
    cpu.bus.write_byte(address, value);

    let pc_read_value = cpu.read_byte_and_increment_pc();

    assert_eq!(value, pc_read_value);
    assert_eq!(0x0, cpu.program_counter);
}

#[test]
fn utils_test_read_address_and_increment_pc() {
    let mut cpu = CPU::new();
    let lsb_stored_address = 0xFFFF;
    let msb_stored_address: u16 = 0x0;
    let lsb_target_address = 0x12;
    let msb_target_address = 0x20;

    cpu.program_counter = lsb_stored_address;

    cpu.bus.write_byte(lsb_stored_address, lsb_target_address);
    cpu.bus.write_byte(msb_stored_address, msb_target_address);

    let result = cpu.read_word_and_increment_pc();

    assert_eq!(join_u8(msb_target_address, lsb_target_address), result);
    assert_eq!(msb_stored_address.wrapping_add(1), cpu.program_counter);
}

#[test]
fn utils_test_set_register_value() {
    let mut cpu = CPU::new();
    for target in REGISTERS {
        let val = u8::random();
        cpu.set_register_value(target, val);

        assert_eq!(val, *cpu.get_register_pointer(target));
    }

    // Not relying on any helper functions
    let val = 0x12;
    cpu.set_register_value(RegisterTarget::E, val);

    assert_eq!(val, cpu.registers.e);
}

#[test]
fn utils_test_get_register_value_and_pointer() {
    let mut cpu = CPU::new();
    for target in REGISTERS {
        assert_eq!(0x0, *cpu.get_register_pointer(target));
    }
    for target in REGISTERS {
        let val = u8::random();
        *cpu.get_register_pointer(target) = val;

        assert_eq!(val, cpu.get_register_value(target));
    }
}

#[test]
fn test_get_set_register_value_16() {
    let mut cpu = CPU::new();
    for target in REGISTERS_16 {
        assert_eq!(0x0, cpu.get_register_value_16(target));
    }
    for target in REGISTERS_16 {
        let val = u16::random();
        cpu.set_register_value_16(target, val);

        assert_eq!(val, cpu.get_register_value_16(target));
    }
}
