use vynkor::text::{
    append_texts, bool_str, concat3, copy_texts, ends_with, join_path, parse_u32, split_once,
    to_decimal, trim, trim_end, trim_start, white_space,
};

#[test]
fn decimal_matches_the_standard_library() {
    for n in [0u64, 7, 9, 10, 19, 100, 1203, 4_294_967_295, 4_294_967_296, u64::MAX] {
        assert_eq!(to_decimal(n), n.to_string());
    }
    for n in 0u64..2000 {
        assert_eq!(to_decimal(n), format!("{}", n));
    }
}

#[test]
fn parse_matches_the_standard_library() {
    for s in [
        "", "0", "7", "+7", "+", "++7", "-0", "-7", "007", "4294967295", "4294967296",
        "99999999999999999999", "12a", "a12", " 12", "12 ", "1_000", "\u{661}", "+0",
        "00000000000000000000000012",
    ] {
        assert_eq!(parse_u32(s), s.parse::<u32>().ok(), "{:?}", s);
    }
}

#[test]
fn decimal_reads_back() {
    for n in [0u32, 1, 42, 99_999, u32::MAX] {
        assert_eq!(parse_u32(&to_decimal(n as u64)), Some(n));
    }
}

#[test]
fn white_space_matches_the_standard_library() {
    for n in 0u32..=0x10ffff {
        if let Some(c) = char::from_u32(n) {
            assert_eq!(white_space(c), c.is_whitespace(), "{:x}", n);
        }
    }
}

#[test]
fn trimming_matches_the_standard_library() {
    for s in ["", " ", "a", " a b ", "\t\u{a0}x\u{3000}\n", "\u{2003}", "no", "x\r\n"] {
        assert_eq!(trim(s), s.trim());
        assert_eq!(trim_end(s), s.trim_end());
        assert_eq!(trim_start(s), s.trim_start());
    }
}

#[test]
fn suffixes_match_the_standard_library() {
    for (s, t) in [("", ""), ("a", ""), ("", "a"), ("abc", "bc"), ("abc", "ab"), ("\u{e9}x", "x")] {
        assert_eq!(ends_with(s, t), s.ends_with(t));
    }
}

#[test]
fn splitting_matches_the_standard_library() {
    for s in ["", "=", "A=1", "A=1=2", "A", "=x", "K\u{e9}=v\u{e9}"] {
        let expected = s.split_once('=').map(|(k, v)| (k.to_string(), v.to_string()));
        assert_eq!(split_once(s, '='), expected);
    }
}

#[test]
fn paths_join_as_on_unix() {
    for (a, b) in [
        ("/data", "plugins"), ("/data/", "plugins"), ("", "plugins"), ("/data", "/etc"),
        ("/data", ""), ("/data", "../x"), ("rel", "a/b"),
    ] {
        let expected = std::path::Path::new(a).join(b);
        assert_eq!(join_path(a, b), expected.to_str().unwrap());
    }
}

#[test]
fn small_text_helpers() {
    assert_eq!(bool_str(true), "true");
    assert_eq!(bool_str(false), "false");
    assert_eq!(concat3("a", "b", "c"), "abc");
    let mut v = copy_texts(&vec!["x".to_string()]);
    append_texts(&mut v, &vec!["y".to_string(), "z".to_string()]);
    assert_eq!(v, vec!["x", "y", "z"]);
}
