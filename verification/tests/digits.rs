use five_dice::digits::{to_decimal, to_hex, to_radix, to_signed_decimal};

#[test]
fn decimal_digits() {
    assert_eq!(to_decimal(0), "0");
    assert_eq!(to_decimal(7), "7");
    assert_eq!(to_decimal(10), "10");
    assert_eq!(to_decimal(255), "255");
    assert_eq!(to_decimal(u64::MAX), "18446744073709551615");
}

#[test]
fn hex_digits_are_lower_case_without_padding() {
    assert_eq!(to_hex(0), "0");
    assert_eq!(to_hex(10), "a");
    assert_eq!(to_hex(16), "10");
    assert_eq!(to_hex(255), "ff");
    assert_eq!(to_hex(0xdead_beef), "deadbeef");
}

#[test]
fn other_bases() {
    assert_eq!(to_radix(5, 2), "101");
    assert_eq!(to_radix(8, 8), "10");
}

#[test]
fn signed_decimal_carries_its_sign() {
    assert_eq!(to_signed_decimal(0), "0");
    assert_eq!(to_signed_decimal(42), "42");
    assert_eq!(to_signed_decimal(-42), "-42");
    assert_eq!(to_signed_decimal(i64::MIN), "-9223372036854775808");
    assert_eq!(to_signed_decimal(i64::MAX), "9223372036854775807");
}
