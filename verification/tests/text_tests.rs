use kamism::text::{
    chars_of, first_field, is_blank, push_int, push_nat, str_contains, str_ends_with, str_eq, str_starts_with,
    str_trim, uuid_string, width_of,
};

#[test]
fn trimming_follows_unicode_white_space() {
    assert_eq!(str_trim("  a b \t\n"), "a b");
    assert_eq!(str_trim("\u{3000}x\u{a0}"), "x");
    assert_eq!(str_trim("   "), "");
    assert!(is_blank(" \t "));
    assert!(is_blank(""));
    assert!(!is_blank(" x "));
}

#[test]
fn comparisons() {
    assert!(str_contains("hello world", "o w"));
    assert!(str_contains("abc", ""));
    assert!(!str_contains("abc", "abcd"));
    assert!(str_starts_with("Bearer x", "Bearer "));
    assert!(!str_starts_with("Bear", "Bearer "));
    assert!(str_ends_with("file.md", ".md"));
    assert!(str_eq("a", "a"));
    assert!(!str_eq("a", "b"));
}

#[test]
fn numbers_in_text() {
    let mut s = String::from("n=");
    push_int(&mut s, -120);
    assert_eq!(s, "n=-120");
    let mut s = String::new();
    push_nat(&mut s, 0);
    push_nat(&mut s, 340282366920938463463374607431768211455);
    assert_eq!(s, "0340282366920938463463374607431768211455");
}

#[test]
fn pieces_of_text() {
    assert_eq!(kamism::text::concat("ab", "cd"), "abcd");
    assert_eq!(first_field(" 1.2.3.4 , 5.6.7.8"), " 1.2.3.4 ");
    assert_eq!(first_field("no comma"), "no comma");
    assert_eq!(chars_of("héllo").len(), 5);
    assert_eq!(width_of('a'), 1);
    assert_eq!(width_of('é'), 2);
    assert_eq!(width_of('中'), 3);
    assert_eq!(width_of('😀'), 4);
}

#[test]
fn uuid_text_is_hyphenated_lower_hex() {
    assert_eq!(uuid_string(0), "00000000-0000-0000-0000-000000000000");
    assert_eq!(uuid_string(0x67e5504410b1426f9247bb680e5fe0c8), "67e55044-10b1-426f-9247-bb680e5fe0c8");
}
