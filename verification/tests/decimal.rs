use wamr_rust_pthreadcall::digits::decimal_string;

#[test]
fn decimal_zero() {
    assert_eq!(decimal_string(0), "0");
}

#[test]
fn decimal_one_digit() {
    assert_eq!(decimal_string(7), "7");
}

#[test]
fn decimal_two_digits() {
    assert_eq!(decimal_string(10), "10");
    assert_eq!(decimal_string(42), "42");
}

#[test]
fn decimal_largest() {
    assert_eq!(decimal_string(u32::MAX), "4294967295");
}
