use hasher::hex::hex_u64;

#[test]
fn zero_is_sixteen_zeros() {
    assert_eq!(hex_u64(0), "0000000000000000");
}

#[test]
fn a_short_value_is_padded_in_front() {
    assert_eq!(hex_u64(0xff), "00000000000000ff");
    assert_eq!(hex_u64(0xabc), "0000000000000abc");
    assert_eq!(hex_u64(1 << 60), "1000000000000000");
}

#[test]
fn the_digits_come_most_significant_first() {
    assert_eq!(hex_u64(0x0123456789abcdef), "0123456789abcdef");
    assert_eq!(hex_u64(0x3d5124c4cd58914e), "3d5124c4cd58914e");
}

#[test]
fn the_greatest_value_is_sixteen_times_f() {
    assert_eq!(hex_u64(u64::MAX), "ffffffffffffffff");
}

#[test]
fn a_rendering_agrees_with_the_formatter_of_std() {
    let mut value: u64 = 0x9e3779b97f4a7c15;
    for _ in 0..200 {
        assert_eq!(hex_u64(value), format!("{:016x}", value));
        value = value.wrapping_mul(0x2545f4914f6cdd1d).rotate_left(17) ^ (value >> 7);
    }
}
