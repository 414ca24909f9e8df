use codex_relay::json::{parse, Json};
use codex_relay::text::{contains, is_white_space, join, parse_number, split, trim, NumberError};

#[test]
fn substrings_are_found() {
    assert!(contains("claude_pro", "pro"));
    assert!(contains("pro", "pro"));
    assert!(contains("pro", ""));
    assert!(contains("", ""));
    assert!(!contains("pr", "pro"));
    assert!(!contains("p-r-o", "pro"));
    assert!(contains("gr\u{fc}n und blau", "n und"));
}

#[test]
fn splitting_follows_std() {
    for text in ["", ".", "a", "a.b", "a.b.c", ".a.", "a..b", "\u{e4}.\u{6f22}.z", "..."] {
        let want: Vec<String> = text.split('.').map(|p| p.to_string()).collect();
        assert_eq!(split(text, '.'), want);
    }
}

#[test]
fn white_space_is_that_of_std() {
    for code in 0..=0x10ffffu32 {
        if let Some(c) = char::from_u32(code) {
            assert_eq!(is_white_space(c), c.is_whitespace(), "{:x}", code);
        }
    }
}

#[test]
fn trimming_follows_std() {
    for text in ["", " ", "  5", "5\t\n", " a b ", "\u{3000}x\u{a0}", "x"] {
        assert_eq!(trim(text), text.trim());
    }
}

#[test]
fn numbers_follow_std() {
    for text in [
        "0", "5", "+5", "007", "18446744073709551615", "18446744073709551616", "", "+", "-", "-5",
        "5a", "a5", "++5", "99999999999999999999999a", "1_000", "\u{665}", " 5",
    ] {
        assert_eq!(parse_number(text).ok(), text.parse::<u64>().ok(), "{}", text);
    }
    assert_eq!(parse_number(""), Err(NumberError::Empty));
    assert_eq!(parse_number("+"), Err(NumberError::InvalidDigit));
    assert_eq!(parse_number("12x"), Err(NumberError::InvalidDigit));
    assert_eq!(parse_number("99999999999999999999999a"), Err(NumberError::TooLarge));
}

#[test]
fn parts_are_joined() {
    let parts = |list: &[&str]| list.iter().map(|s| s.to_string()).collect::<Vec<String>>();
    assert_eq!(join(&parts(&[]), ","), "");
    assert_eq!(join(&parts(&["a"]), ","), "a");
    assert_eq!(join(&parts(&["a", "", "c"]), ", "), "a, , c");
}

#[test]
fn documents_are_read() {
    let doc = parse(br#"{"a": [1, "x", null, true], "b": {"c": "d"}, "s": 2.50}"#).unwrap();
    assert!(doc.is_object());
    let items = doc.get("a").unwrap().as_array().unwrap();
    assert_eq!(items.len(), 4);
    assert!(matches!(&items[0], Json::Number(n) if n == "1"));
    assert_eq!(items[1].as_str(), Some("x"));
    assert!(matches!(&items[2], Json::Null));
    assert_eq!(items[3].as_bool(), Some(true));
    assert_eq!(doc.get("b").unwrap().get("c").unwrap().as_str(), Some("d"));
    assert!(doc.get("missing").is_none());
    assert!(items[1].get("a").is_none());
    assert!(doc.as_array().is_none());
    assert!(doc.as_bool().is_none());
    assert!(doc.as_str().is_none());
}

#[test]
fn the_last_of_equal_names_counts() {
    let doc = parse(br#"{"k": 1, "k": "last"}"#).unwrap();
    assert_eq!(doc.get("k").unwrap().as_str(), Some("last"));
}

#[test]
fn other_bytes_are_no_documents() {
    for bytes in [&b""[..], b"{", b"{} x", &[0xff, 0xfe]] {
        let want = serde_json::from_slice::<serde_json::Value>(bytes).unwrap_err();
        assert_eq!(parse(bytes).unwrap_err(), want.to_string());
    }
}
