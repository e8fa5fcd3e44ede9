use exit_result::decimal::signed_decimal;
use exit_result::decimal::unsigned_decimal;

#[test]
fn renders_zero() {
    assert_eq!(unsigned_decimal(0), "0");
}

#[test]
fn renders_single_digits() {
    for d in 0u64..10 {
        let rendered = unsigned_decimal(d);
        assert_eq!(rendered.len(), 1);
        assert_eq!(rendered, format!("{}", d));
    }
}

#[test]
fn renders_multi_digit_values() {
    assert_eq!(unsigned_decimal(10), "10");
    assert_eq!(unsigned_decimal(127), "127");
    assert_eq!(unsigned_decimal(10203), "10203");
    assert_eq!(unsigned_decimal(u64::MAX), "18446744073709551615");
}

#[test]
fn renders_signed_values() {
    assert_eq!(signed_decimal(0), "0");
    assert_eq!(signed_decimal(42), "42");
    assert_eq!(signed_decimal(-1), "-1");
    assert_eq!(signed_decimal(-100), "-100");
    assert_eq!(signed_decimal(i64::MAX), "9223372036854775807");
    assert_eq!(signed_decimal(i64::MIN), "-9223372036854775808");
}
