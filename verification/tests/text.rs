use corsair_void::text;

#[test]
fn white_space_is_that_of_unicode() {
    for code in 0..=0x10ffff_u32 {
        if let Some(c) = char::from_u32(code) {
            assert_eq!(text::white_space(c), c.is_whitespace(), "{:?}", c);
        }
    }
}

#[test]
fn trimming_takes_both_ends() {
    for s in ["", " ", "a", " a ", "\t a b \r\n", "\u{3000}x\u{85}", "\u{200b}"] {
        assert_eq!(text::trim(s), s.trim());
    }
}

#[test]
fn numbers_are_read_as_std_reads_them() {
    for s in [
        "", "+", "-", "0", "00", "7", "+7", "-7", "-0", "255", "256", "0255", "1000", " 7", "7 ",
        "1x", "++1", "99999999999999999999", "\u{0661}",
    ] {
        assert_eq!(text::parse_u8(s), s.parse::<u8>().ok(), "{:?}", s);
    }
    for n in 0..=255_u8 {
        let mut out = String::from("n=");
        text::append_decimal(&mut out, n);
        assert_eq!(out, format!("n={}", n));
        assert_eq!(text::parse_u8(&n.to_string()), Some(n));
    }
}

#[test]
fn booleans_are_written_out() {
    let mut out = String::new();
    text::append_bool(&mut out, true);
    text::append_bool(&mut out, false);
    assert_eq!(out, "truefalse");
}

#[test]
fn texts_are_compared() {
    assert!(text::equal("OK", "OK"));
    assert!(!text::equal("OK", "ok"));
    assert!(!text::equal("OK", "OK:"));
    assert!(text::equal_ignoring_case("StAtUs", "STATUS"));
    assert!(!text::equal_ignoring_case("status ", "STATUS"));
    // Only ASCII letters have a case here.
    assert!(!text::equal_ignoring_case("\u{e9}", "\u{c9}"));
}

#[test]
fn texts_are_taken_apart() {
    assert_eq!(text::strip_prefix("BOOST 5", "BOOST "), Some("5"));
    assert_eq!(text::strip_prefix("BOOS", "BOOST "), None);
    assert_eq!(text::split_once("a=b=c", '='), Some(("a", "b=c")));
    assert_eq!(text::split_once("abc", '='), None);
    for s in ["", ",", "a", "a,b", ",a,,b,"] {
        let parts: Vec<&str> = s.split(',').collect();
        assert_eq!(text::split(s, ','), parts);
    }
    assert!(text::contains("the corsair void", "corsair"));
    assert!(text::contains("x", ""));
    assert!(!text::contains("corsai", "corsair"));
    assert_eq!(text::chars_of("a\u{e9}"), vec!['a', '\u{e9}']);
}

#[test]
fn paths_are_joined() {
    assert_eq!(text::join_path("/a", "b"), "/a/b");
    assert_eq!(text::join_path("/a/", "b"), "/a/b");
    assert_eq!(text::join_path("", "b"), "b");
}
