use profile_errors::decimal::u64_to_decimal;

#[test]
fn renders_zero() {
    assert_eq!(u64_to_decimal(0), "0");
}

#[test]
fn renders_single_digit() {
    assert_eq!(u64_to_decimal(7), "7");
}

#[test]
fn renders_round_number() {
    assert_eq!(u64_to_decimal(10), "10");
    assert_eq!(u64_to_decimal(1000), "1000");
}

#[test]
fn renders_many_digits() {
    assert_eq!(u64_to_decimal(501), "501");
    assert_eq!(u64_to_decimal(1234567890), "1234567890");
}

#[test]
fn renders_largest_value() {
    assert_eq!(u64_to_decimal(u64::MAX), "18446744073709551615");
}
