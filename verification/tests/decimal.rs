use timhortons_tracker::decimal::{decimal_text, push_decimal};

#[test]
fn decimal_text_of_zero_is_one_digit() {
    assert_eq!(decimal_text(0), "0");
}

#[test]
fn decimal_text_of_one_digit_numbers() {
    assert_eq!(decimal_text(1), "1");
    assert_eq!(decimal_text(7), "7");
    assert_eq!(decimal_text(9), "9");
}

#[test]
fn decimal_text_keeps_inner_and_trailing_zeros() {
    assert_eq!(decimal_text(10), "10");
    assert_eq!(decimal_text(120), "120");
    assert_eq!(decimal_text(1005), "1005");
}

#[test]
fn decimal_text_of_the_largest_quantity() {
    assert_eq!(decimal_text(u32::MAX), "4294967295");
}

#[test]
fn decimal_text_agrees_with_the_standard_rendering() {
    for n in [0u32, 5, 42, 99, 100, 65_535, 1_000_000, 2_147_483_648, u32::MAX - 1] {
        assert_eq!(decimal_text(n), n.to_string());
    }
}

#[test]
fn push_decimal_appends_to_what_is_there() {
    let mut line = String::from("x");
    push_decimal(&mut line, 3);
    push_decimal(&mut line, 40);
    assert_eq!(line, "x340");
}
