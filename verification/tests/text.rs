use lcnc_web::text::{bytes_equal, concat_bytes, push_decimal, split_text, trim_text, white_space};

#[test]
fn split_like_str_split() {
    assert_eq!(split_text("a\nb\nc", '\n'), vec!["a", "b", "c"]);
    assert_eq!(split_text("", '\n'), vec![""]);
    assert_eq!(split_text("\n", '\n'), vec!["", ""]);
    assert_eq!(split_text("a,,b,", ','), vec!["a", "", "b", ""]);
}

#[test]
fn trim_like_str_trim() {
    for s in ["  a b  ", "\t\nx\r\n", "", "   ", "\u{2003}y\u{85}", "z"] {
        assert_eq!(trim_text(s), s.trim());
    }
}

#[test]
fn white_space_like_char_is_whitespace() {
    for c in ['\u{0}', ' ', '\t', '\u{b}', 'a', '\u{85}', '\u{a0}', '\u{200b}', '\u{2028}', '\u{3000}', '\u{feff}'] {
        assert_eq!(white_space(c), c.is_whitespace(), "{:?}", c);
    }
}

#[test]
fn decimal_rendering() {
    for n in [0u64, 7, 10, 99, 100, 65535, u64::MAX] {
        let mut s = String::from("p=");
        push_decimal(&mut s, n);
        assert_eq!(s, format!("p={}", n));
    }
}

#[test]
fn byte_helpers() {
    assert_eq!(concat_bytes(b"ab", b"cd"), b"abcd".to_vec());
    assert!(bytes_equal(b"13", b"13"));
    assert!(!bytes_equal(b"13", b"12"));
    assert!(!bytes_equal(b"1", b"13"));
}
