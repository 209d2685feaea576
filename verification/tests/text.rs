use bluezadvertising::text::{
    chars_of, hex_digit, join_chars, lower_chars, same_text, split_chars, string_of,
    to_ascii_lower, to_ascii_upper, upper_chars, without_char,
};

fn v(s: &str) -> Vec<char> {
    s.chars().collect()
}

fn pieces(parts: &[&str]) -> Vec<Vec<char>> {
    parts.iter().map(|p| v(p)).collect()
}

#[test]
fn chars_and_back() {
    for s in ["", "a", "dev_F0", "\u{e9}t\u{e9}", "\u{1f321}\u{fe0f} 5.1"] {
        assert_eq!(chars_of(s), v(s));
        assert_eq!(string_of(&v(s)), s);
    }
}

#[test]
fn split_like_the_standard_library() {
    for (s, sep) in [
        ("", '/'),
        ("/", '/'),
        ("//", '/'),
        ("a", '/'),
        ("/org/bluez/hci0/dev_F0_73", '/'),
        ("dev_F0_73_23_10_C7_3E", '_'),
        ("_a__b_", '_'),
        ("\u{e9}_\u{e8}", '_'),
    ] {
        let expected: Vec<Vec<char>> = s.split(sep).map(v).collect();
        assert_eq!(split_chars(&v(s), sep), expected, "{:?}", s);
    }
}

#[test]
fn split_gives_one_piece_more_than_separators() {
    assert_eq!(split_chars(&v(""), '_'), pieces(&[""]));
    assert_eq!(split_chars(&v("_"), '_'), pieces(&["", ""]));
    assert_eq!(split_chars(&v("a_b"), '_'), pieces(&["a", "b"]));
    assert_eq!(split_chars(&v("a__b_"), '_'), pieces(&["a", "", "b", ""]));
}

#[test]
fn join_puts_the_separator_between_pieces() {
    let parts = pieces(&["dev", "F0", "73", "23"]);
    assert_eq!(join_chars(&parts, 0, ':'), v("dev:F0:73:23"));
    assert_eq!(join_chars(&parts, 1, ':'), v("F0:73:23"));
    assert_eq!(join_chars(&parts, 3, ':'), v("23"));
    assert_eq!(join_chars(&parts, 4, ':'), v(""));
    assert_eq!(join_chars(&pieces(&["", "", ""]), 0, ':'), v("::"));
    assert_eq!(join_chars(&pieces(&["", "a"]), 0, ':'), v(":a"));
    assert_eq!(join_chars(&pieces(&[]), 0, ':'), v(""));
}

#[test]
fn case_of_single_characters() {
    assert_eq!(to_ascii_upper('a'), 'A');
    assert_eq!(to_ascii_upper('z'), 'Z');
    assert_eq!(to_ascii_upper('A'), 'A');
    assert_eq!(to_ascii_upper('`'), '`');
    assert_eq!(to_ascii_upper('{'), '{');
    assert_eq!(to_ascii_upper('7'), '7');
    assert_eq!(to_ascii_upper('\u{e9}'), '\u{e9}');
    assert_eq!(to_ascii_lower('A'), 'a');
    assert_eq!(to_ascii_lower('Z'), 'z');
    assert_eq!(to_ascii_lower('a'), 'a');
    assert_eq!(to_ascii_lower('@'), '@');
    assert_eq!(to_ascii_lower('['), '[');
    assert_eq!(to_ascii_lower('\u{c9}'), '\u{c9}');
}

#[test]
fn case_like_the_standard_library() {
    for c in (0u32..0x300).filter_map(char::from_u32) {
        assert_eq!(to_ascii_upper(c), c.to_ascii_uppercase());
        assert_eq!(to_ascii_lower(c), c.to_ascii_lowercase());
        assert_eq!(hex_digit(c), c.is_ascii_hexdigit());
    }
}

#[test]
fn case_of_sequences() {
    assert_eq!(upper_chars(&v("f0:7a:3e \u{e9}")), v("F0:7A:3E \u{e9}"));
    assert_eq!(lower_chars(&v("F0:7A:3E \u{c9}")), v("f0:7a:3e \u{c9}"));
    assert_eq!(upper_chars(&v("")), v(""));
}

#[test]
fn without_drops_every_occurrence() {
    assert_eq!(without_char(&v("F0:73:23"), ':'), v("F07323"));
    assert_eq!(without_char(&v("::"), ':'), v(""));
    assert_eq!(without_char(&v("abc"), ':'), v("abc"));
    assert_eq!(without_char(&v(""), ':'), v(""));
}

#[test]
fn sameness() {
    assert!(same_text("", ""));
    assert!(same_text("org.bluez.Device1", "org.bluez.Device1"));
    assert!(!same_text("org.bluez.Device1", "org.bluez.Device"));
    assert!(!same_text("org.bluez.Device1", "org.bluez.Device2"));
    assert!(!same_text("\u{e9}", "e\u{301}"));
}
