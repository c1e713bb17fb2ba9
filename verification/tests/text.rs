use forward_as_attachment_mta::text::{
    chars_of, decimal_string, has_at, same_ignoring_ascii_case, string_of, whitespace,
};

#[test]
fn whitespace_is_what_unicode_calls_white_space() {
    let mut code: u32 = 0;
    while code <= 0x10ffff {
        if let Some(c) = char::from_u32(code) {
            assert_eq!(whitespace(c), c.is_whitespace(), "code {:x}", code);
        }
        code += 1;
    }
}

#[test]
fn chars_and_strings_convert_back_and_forth() {
    let chars = chars_of("h\u{e9}llo w\u{f6}rld");
    assert_eq!(chars.len(), 11);
    assert_eq!(chars[1], '\u{e9}');
    assert_eq!(string_of(&chars, 0, 11), "h\u{e9}llo w\u{f6}rld");
    assert_eq!(string_of(&chars, 6, 11), "w\u{f6}rld");
    assert_eq!(string_of(&chars, 3, 3), "");
    assert_eq!(chars_of(""), Vec::<char>::new());
}

#[test]
fn pattern_is_found_only_where_it_stands() {
    let text = chars_of("abcabc");
    let pattern = chars_of("bc");
    assert!(!has_at(&text, 0, &pattern));
    assert!(has_at(&text, 1, &pattern));
    assert!(has_at(&text, 4, &pattern));
    assert!(!has_at(&text, 5, &pattern));
    assert!(!has_at(&text, 6, &pattern));
    assert!(!has_at(&text, 7, &pattern));
    assert!(has_at(&text, 6, &chars_of("")));
    assert!(!has_at(&pattern, 0, &text));
}

#[test]
fn names_are_compared_without_ascii_case() {
    assert!(same_ignoring_ascii_case("From", "from"));
    assert!(same_ignoring_ascii_case("FROM", "fRoM"));
    assert!(same_ignoring_ascii_case("", ""));
    assert!(same_ignoring_ascii_case("X-Sp\u{e9}cial", "x-sp\u{e9}cial"));
    assert!(!same_ignoring_ascii_case("From", "Fro"));
    assert!(!same_ignoring_ascii_case("Fro", "From"));
    assert!(!same_ignoring_ascii_case("From", "Frem"));
    assert!(!same_ignoring_ascii_case("\u{c9}", "\u{e9}"));
    assert!(!same_ignoring_ascii_case("@", "`"));
    assert!(!same_ignoring_ascii_case("[", "{"));
    let names = ["Subject", "SUBJECT", "subject ", "Sub-ject", "\u{17f}ubject", "K", "\u{212a}"];
    for a in names {
        for b in names {
            assert_eq!(same_ignoring_ascii_case(a, b), a.eq_ignore_ascii_case(b));
        }
    }
}

#[test]
fn numbers_are_written_in_decimal() {
    assert_eq!(decimal_string(0), "0");
    assert_eq!(decimal_string(7), "7");
    assert_eq!(decimal_string(10), "10");
    assert_eq!(decimal_string(1000), "1000");
    assert_eq!(decimal_string(65534), "65534");
    assert_eq!(decimal_string(4294967295), "4294967295");
    for n in [1u32, 9, 11, 99, 100, 101, 12345, 1_000_000_007, u32::MAX - 1] {
        assert_eq!(decimal_string(n), n.to_string());
    }
}
