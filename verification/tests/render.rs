use histdb_skim::render::{pad_right, signed_to_string, unsigned_to_string};

#[test]
fn unsigned_numbers_in_decimal() {
    assert_eq!(unsigned_to_string(0), "0");
    assert_eq!(unsigned_to_string(7), "7");
    assert_eq!(unsigned_to_string(10), "10");
    assert_eq!(unsigned_to_string(1234567890), "1234567890");
    assert_eq!(unsigned_to_string(u64::MAX), "18446744073709551615");
}

#[test]
fn signed_numbers_in_decimal() {
    assert_eq!(signed_to_string(0), "0");
    assert_eq!(signed_to_string(42), "42");
    assert_eq!(signed_to_string(-1), "-1");
    assert_eq!(signed_to_string(-120), "-120");
    assert_eq!(signed_to_string(i64::MAX), "9223372036854775807");
    assert_eq!(signed_to_string(i64::MIN), "-9223372036854775808");
}

#[test]
fn decimal_agrees_with_the_standard_library() {
    for value in [-1000i64, -99, -10, -9, 0, 9, 10, 99, 100, 101, 4711, 86400, 1700000000] {
        assert_eq!(signed_to_string(value), value.to_string());
    }
}

#[test]
fn short_texts_are_padded_to_the_width() {
    assert_eq!(pad_right("", 3), "   ");
    assert_eq!(pad_right("12:30", 10), "12:30     ");
    assert_eq!(pad_right("Runtime", 20), "Runtime             ");
    assert_eq!(pad_right("äö", 4), "äö  ");
}

#[test]
fn long_texts_are_left_as_they_are() {
    assert_eq!(pad_right("01/02/2023", 10), "01/02/2023");
    assert_eq!(pad_right("01/02/+12023", 10), "01/02/+12023");
    assert_eq!(pad_right("abc", 0), "abc");
}

#[test]
fn padding_agrees_with_the_standard_width() {
    for text in ["", "a", "12:30", "0123456789", "0123456789a", "Exit Status"] {
        assert_eq!(pad_right(text, 10), format!("{:10}", text));
        assert_eq!(pad_right(text, 20), format!("{:20}", text));
    }
}
