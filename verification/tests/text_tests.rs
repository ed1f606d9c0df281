use minipl::text::{
    blank, bool_to_text, bounded_digits_value, chars_of, int_to_text, parse_bool_text,
    parse_int_text, same_text, text_before, text_of, trim_text,
};

#[test]
fn characters_of_a_text() {
    assert_eq!(chars_of("aé\n"), vec!['a', 'é', '\n']);
    assert_eq!(chars_of(""), Vec::<char>::new());
}

#[test]
fn text_of_a_range_of_characters() {
    let chars = vec!['h', 'e', 'l', 'l', 'o'];
    assert_eq!(text_of(&chars, 1, 4), "ell");
    assert_eq!(text_of(&chars, 0, 5), "hello");
    assert_eq!(text_of(&chars, 2, 2), "");
}

#[test]
fn decimal_text_of_integers() {
    assert_eq!(int_to_text(0), "0");
    assert_eq!(int_to_text(7), "7");
    assert_eq!(int_to_text(123), "123");
    assert_eq!(int_to_text(-5), "-5");
    assert_eq!(int_to_text(1000), "1000");
    assert_eq!(int_to_text(2147483647), "2147483647");
    assert_eq!(int_to_text(-2147483648), "-2147483648");
}

#[test]
fn text_of_truth_values() {
    assert_eq!(bool_to_text(true), "true");
    assert_eq!(bool_to_text(false), "false");
}

#[test]
fn reads_integers() {
    assert_eq!(parse_int_text("0"), Some(0));
    assert_eq!(parse_int_text("42"), Some(42));
    assert_eq!(parse_int_text("+42"), Some(42));
    assert_eq!(parse_int_text("-42"), Some(-42));
    assert_eq!(parse_int_text("007"), Some(7));
    assert_eq!(parse_int_text("2147483647"), Some(2147483647));
    assert_eq!(parse_int_text("-2147483648"), Some(-2147483648));
}

#[test]
fn rejects_what_is_no_integer() {
    assert_eq!(parse_int_text(""), None);
    assert_eq!(parse_int_text("-"), None);
    assert_eq!(parse_int_text("+"), None);
    assert_eq!(parse_int_text("12a"), None);
    assert_eq!(parse_int_text("1 2"), None);
    assert_eq!(parse_int_text("--1"), None);
    assert_eq!(parse_int_text("2147483648"), None);
    assert_eq!(parse_int_text("-2147483649"), None);
    assert_eq!(parse_int_text("99999999999999999999"), None);
}

#[test]
fn digits_up_to_a_limit() {
    let chars = vec!['x', '1', '2', '3'];
    assert_eq!(bounded_digits_value(&chars, 1, 1000), Some(123));
    assert_eq!(bounded_digits_value(&chars, 1, 123), Some(123));
    assert_eq!(bounded_digits_value(&chars, 1, 122), None);
    assert_eq!(bounded_digits_value(&chars, 0, 1000), None);
    assert_eq!(bounded_digits_value(&chars, 4, 1000), Some(0));
}

#[test]
fn reads_truth_values() {
    assert_eq!(parse_bool_text("true"), Some(true));
    assert_eq!(parse_bool_text("false"), Some(false));
    assert_eq!(parse_bool_text("True"), None);
    assert_eq!(parse_bool_text(""), None);
    assert_eq!(parse_bool_text("1"), None);
}

#[test]
fn compares_texts_for_equality() {
    assert!(same_text("abc", "abc"));
    assert!(!same_text("abc", "abd"));
    assert!(!same_text("abc", "ab"));
}

#[test]
fn blanks() {
    assert!(blank(' '));
    assert!(blank('\t'));
    assert!(blank('\n'));
    assert!(blank('\r'));
    assert!(!blank('a'));
    assert!(!blank('_'));
}

#[test]
fn trims_both_ends() {
    assert_eq!(trim_text("  a b \t\r\n"), "a b");
    assert_eq!(trim_text("abc"), "abc");
    assert_eq!(trim_text("   "), "");
    assert_eq!(trim_text(""), "");
    assert_eq!(trim_text(" x"), "x");
    assert_eq!(trim_text("x "), "x");
}

#[test]
fn order_of_texts() {
    assert!(text_before("a", "b"));
    assert!(!text_before("b", "a"));
    assert!(text_before("ab", "abc"));
    assert!(!text_before("abc", "ab"));
    assert!(!text_before("abc", "abc"));
    assert!(text_before("", "a"));
    assert!(!text_before("", ""));
    assert!(text_before("Z", "a"));
    assert!(text_before("abc", "abd"));
    assert!(text_before("z", "é"));
}

#[test]
fn order_of_texts_is_that_of_the_standard_library() {
    let samples = ["", "a", "ab", "abc", "b", "B", "é", "z", "10", "9"];
    for left in samples.iter() {
        for right in samples.iter() {
            assert_eq!(text_before(left, right), left < right);
        }
    }
}
