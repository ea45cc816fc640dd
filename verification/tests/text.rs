use sslb::text::{bool_str, decimal_string, push_decimal, push_signed_decimal};

#[test]
fn decimal_numerals() {
    assert_eq!(decimal_string(0), "0");
    assert_eq!(decimal_string(7), "7");
    assert_eq!(decimal_string(9), "9");
    assert_eq!(decimal_string(10), "10");
    assert_eq!(decimal_string(99), "99");
    assert_eq!(decimal_string(100), "100");
    assert_eq!(decimal_string(1234567890), "1234567890");
    assert_eq!(decimal_string(u64::MAX), "18446744073709551615");
}

#[test]
fn decimal_numerals_agree_with_std() {
    for n in 0..2000u64 {
        assert_eq!(decimal_string(n), format!("{}", n));
    }
}

#[test]
fn push_decimal_appends() {
    let mut s = String::from("x=");
    push_decimal(&mut s, 42);
    assert_eq!(s, "x=42");
    push_decimal(&mut s, 0);
    assert_eq!(s, "x=420");
}

#[test]
fn signed_numerals() {
    let render = |v: i64| {
        let mut s = String::new();
        push_signed_decimal(&mut s, v);
        s
    };
    assert_eq!(render(0), "0");
    assert_eq!(render(5), "5");
    assert_eq!(render(-5), "-5");
    assert_eq!(render(-10), "-10");
    assert_eq!(render(i64::MAX), "9223372036854775807");
    assert_eq!(render(i64::MIN), "-9223372036854775808");
    assert_eq!(render(i32::MIN as i64), "-2147483648");
}

#[test]
fn truth_values() {
    assert_eq!(bool_str(true), "true");
    assert_eq!(bool_str(false), "false");
}
