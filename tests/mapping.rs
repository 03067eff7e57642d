use gb_core::decode::{init_instruction_array, init_prefix_instruction_array};
use gb_core::instructions::Instruction;

fn assert_no_duplicates(array: [Option<Instruction>; 256]) {
    for (i, el1) in array.iter().enumerate() {
        if el1.is_none() {
            continue;
        }
        for el2 in &array[(i + 1)..] {
            if el2.is_none() {
                continue;
            }
            assert_ne!((*el1).unwrap(), (*el2).unwrap());
        }
    }
}

#[test]
fn test_init_instruction_array() {
    assert_no_duplicates(init_instruction_array());
}

#[test]
fn test_init_prefix_instruction_array() {
    assert_no_duplicates(init_prefix_instruction_array());
}
