use speconn::text::{contains, parse_u32, push_decimal, skip_chars, starts_with, trim_end_slashes};

#[test]
fn decimal_text() {
    let mut s = String::from("n=");
    push_decimal(&mut s, 0);
    assert_eq!(s, "n=0");
    let mut s = String::new();
    push_decimal(&mut s, 18446744073709551615);
    assert_eq!(s, "18446744073709551615");
}

#[test]
fn parse_u32_like_std() {
    for t in ["0", "42", "+7", "4294967295", "4294967296", "", "+", "-1", "12a", " 1", "007"] {
        assert_eq!(parse_u32(t), t.parse::<u32>().ok(), "input {:?}", t);
    }
}

#[test]
fn prefix_and_substring() {
    assert!(starts_with("trailer-x", "trailer-"));
    assert!(!starts_with("trail", "trailer-"));
    assert!(contains("application/msgpack", "msgpack"));
    assert!(contains("abc", ""));
    assert!(!contains("application/json", "msgpack"));
}

#[test]
fn trims_trailing_slashes_only() {
    assert_eq!(trim_end_slashes("http://h:1///"), "http://h:1");
    assert_eq!(trim_end_slashes("/a/b"), "/a/b");
    assert_eq!(trim_end_slashes("///"), "");
}

#[test]
fn skips_characters() {
    assert_eq!(skip_chars("Trailer-Grpc", 8), "Grpc");
    assert_eq!(skip_chars("ab", 8), "");
    assert_eq!(skip_chars("éàü-x", 2), "ü-x");
}
