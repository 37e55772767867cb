use emu8080::arith::parity;

#[test]
fn parity_test() {
    assert_eq!(parity(0u8, 8), true); // zero is even .. ?
    assert_eq!(parity(1u8, 8), false);
    assert_eq!(parity(2u8, 8), false);
    assert_eq!(parity(3u8, 8), true);
    assert_eq!(parity(4u8, 8), false);
    assert_eq!(parity(5u8, 8), true);
    assert_eq!(parity(6u8, 8), true);
    assert_eq!(parity(7u8, 8), false);
    assert_eq!(parity(8u8, 8), false);
    assert_eq!(parity(9u8, 8), true);
}

#[test]
fn parity_of_wide_values() {
    assert_eq!(parity(0xffu8, 8), true); // eight ones
    assert_eq!(parity(0xfeu8, 8), false); // seven ones
    assert_eq!(parity(0xf0u8, 8), true); // four ones
    assert_eq!(parity(0x80u8, 8), false); // one one
}

#[test]
fn parity_counts_only_low_bits() {
    // Only the low four digits are inspected here: 0xf3 & 0x0f = 0b0011.
    assert_eq!(parity(0xf3u8, 4), true);
    assert_eq!(parity(0xf1u8, 4), false);
    assert_eq!(parity(0x07u8, 0), true); // no digits, zero ones
}
