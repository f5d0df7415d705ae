use zeroclaw::text::{str_eq, str_eq_ignore_ascii_case, to_decimal, trim_end_char};

#[test]
fn decimal_digits() {
    assert_eq!(to_decimal(0), "0");
    assert_eq!(to_decimal(7), "7");
    assert_eq!(to_decimal(404), "404");
    assert_eq!(to_decimal(18446744073709551615), "18446744073709551615");
}

#[test]
fn trailing_characters_are_removed() {
    assert_eq!(trim_end_char("a//", '/'), "a");
    assert_eq!(trim_end_char("/", '/'), "");
    assert_eq!(trim_end_char("a/b", '/'), "a/b");
}

#[test]
fn equality_helpers() {
    assert!(str_eq("abc", "abc"));
    assert!(!str_eq("abc", "abC"));
    assert!(!str_eq("ab", "abc"));
    assert!(str_eq_ignore_ascii_case("AbC", "aBc"));
    assert!(!str_eq_ignore_ascii_case("É", "é"));
    assert!(!str_eq_ignore_ascii_case("a[", "A{"));
}
