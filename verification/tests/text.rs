use cgp_patterns::text::{joined, to_decimal, ToText};

#[test]
fn decimal_of_zero_is_one_digit() {
    assert_eq!(to_decimal(0), "0");
}

#[test]
fn decimal_of_single_digits() {
    assert_eq!(to_decimal(7), "7");
    assert_eq!(to_decimal(9), "9");
}

#[test]
fn decimal_has_no_leading_zero() {
    assert_eq!(to_decimal(10), "10");
    assert_eq!(to_decimal(404), "404");
    assert_eq!(to_decimal(1000), "1000");
}

#[test]
fn decimal_of_the_largest_number() {
    assert_eq!(to_decimal(u64::MAX), "18446744073709551615");
    assert_eq!(to_decimal(u64::MAX), u64::MAX.to_string());
}

#[test]
fn decimal_agrees_with_std_on_a_range() {
    let mut n: u64 = 0;
    while n < 2500 {
        assert_eq!(to_decimal(n), n.to_string());
        n += 7;
    }
}

#[test]
fn joined_puts_left_before_right() {
    assert_eq!(joined("left", "right"), "leftright");
    assert_eq!(joined("", "right"), "right");
    assert_eq!(joined("left", ""), "left");
}

#[test]
fn a_string_is_its_own_line() {
    let s = String::from("some detail");
    assert_eq!(s.to_text(), "some detail");
}
