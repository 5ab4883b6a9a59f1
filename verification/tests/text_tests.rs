use wrappers::text::append_decimal;

fn decimal(n: u64) -> String {
    let mut text = String::new();
    append_decimal(&mut text, n);
    text
}

#[test]
fn decimal_text_of_small_numbers() {
    assert_eq!(decimal(0), "0");
    assert_eq!(decimal(7), "7");
    assert_eq!(decimal(9), "9");
    assert_eq!(decimal(10), "10");
    assert_eq!(decimal(11), "11");
}

#[test]
fn decimal_text_keeps_inner_zeros() {
    assert_eq!(decimal(100), "100");
    assert_eq!(decimal(1002003), "1002003");
    assert_eq!(decimal(9090), "9090");
}

#[test]
fn decimal_text_of_the_largest_number() {
    assert_eq!(decimal(u64::MAX), "18446744073709551615");
    assert_eq!(decimal(1234567890), "1234567890");
}

#[test]
fn decimal_text_is_appended() {
    let mut text = "row ".to_string();
    append_decimal(&mut text, 42);
    append_decimal(&mut text, 0);
    assert_eq!(text, "row 420");
}
