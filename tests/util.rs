use gb_core::util::{join_u8, split_u16};

#[test]
fn test_split_u16() {
    let (a, b) = split_u16(0xABCD);

    assert_eq!(0xAB, a);
    assert_eq!(0xCD, b);
}

#[test]
fn test_join_u16() {
    assert_eq!(0xABCD, join_u8(0xAB, 0xCD));
    assert_eq!(0xCD, join_u8(0x0, 0xCD));
}
