use thread_pool::text::{digit_char, push_decimal};

#[test]
fn digits_are_the_ascii_digits() {
    let digits: String = (0..10).map(digit_char).collect();
    assert_eq!(digits, "0123456789");
}

#[test]
fn decimal_of_small_numbers() {
    for n in [0usize, 1, 9, 10, 11, 99, 100, 101, 1000, 65535] {
        let mut text = String::new();
        push_decimal(&mut text, n);
        assert_eq!(text, format!("{}", n));
    }
}

#[test]
fn decimal_of_the_largest_number() {
    let mut text = String::new();
    push_decimal(&mut text, usize::MAX);
    assert_eq!(text, usize::MAX.to_string());
}

#[test]
fn decimal_is_appended_behind_what_is_there() {
    let mut text = String::from("n = ");
    push_decimal(&mut text, 407);
    assert_eq!(text, "n = 407");
    push_decimal(&mut text, 0);
    assert_eq!(text, "n = 4070");
}
