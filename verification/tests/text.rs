use http_kit::mime_guess::guess;
use http_kit::text::ascii_bytes;
use http_kit::text::decode_lossy;
use http_kit::text::parse_decimal;
use http_kit::text::push_decimal;
use http_kit::text::same_bytes;
use http_kit::text::starts_with;

#[test]
fn guess_knows_the_listed_extensions() {
    assert_eq!(guess(b"html"), None);
    assert_eq!(guess(b"css"), Some("text/css"));
    assert_eq!(guess(b"js"), Some("text/javascript"));
    assert_eq!(guess(b"json"), Some("application/json"));
    assert_eq!(guess(b"png"), Some("image/png"));
    assert_eq!(guess(b"jpg"), Some("image/jpeg"));
    assert_eq!(guess(b"jpeg"), Some("image/jpeg"));
    assert_eq!(guess(b"gif"), Some("image/gif"));
    assert_eq!(guess(b"webp"), Some("image/webp"));
    assert_eq!(guess(b"svg"), Some("image/svg+xml"));
    assert_eq!(guess(b"mp3"), Some("audio/mpeg"));
    assert_eq!(guess(b"wav"), Some("audio/wav"));
    assert_eq!(guess(b"aac"), Some("audio/aac"));
    assert_eq!(guess(b"mp4"), Some("video/mp4"));
    assert_eq!(guess(b"avi"), Some("video/x-msvideo"));
    assert_eq!(guess(b"txt"), Some("text/plain"));
    assert_eq!(guess(b"ttf"), Some("font/ttf"));
    assert_eq!(guess(b"unknown"), None);
}

#[test]
fn guess_is_exact_about_case_and_length() {
    assert_eq!(guess(b""), None);
    assert_eq!(guess(b"PNG"), None);
    assert_eq!(guess(b".png"), None);
    assert_eq!(guess(b"pn"), None);
    assert_eq!(guess(b"pngs"), None);
    assert_eq!(guess(b"jpe"), None);
    assert_eq!(guess(&[0xFF]), None);
}

#[test]
fn decimal_parse_follows_the_unsigned_grammar() {
    assert_eq!(parse_decimal(b"0"), Some(0));
    assert_eq!(parse_decimal(b"3000"), Some(3000));
    assert_eq!(parse_decimal(b"+3000"), Some(3000));
    assert_eq!(parse_decimal(b"000"), Some(0));
    assert_eq!(parse_decimal(b"18446744073709551615"), Some(u64::MAX));
    assert_eq!(parse_decimal(b"018446744073709551615"), Some(u64::MAX));
    assert_eq!(parse_decimal(b"18446744073709551616"), None);
    assert_eq!(parse_decimal(b"99999999999999999999"), None);
    assert_eq!(parse_decimal(b"184467440737095516150"), None);
    assert_eq!(parse_decimal(b""), None);
    assert_eq!(parse_decimal(b"+"), None);
    assert_eq!(parse_decimal(b"-"), None);
    assert_eq!(parse_decimal(b"-0"), None);
    assert_eq!(parse_decimal(b"++1"), None);
    assert_eq!(parse_decimal(b"1+"), None);
    assert_eq!(parse_decimal(b" 1"), None);
    assert_eq!(parse_decimal(b"1a"), None);
    assert_eq!(parse_decimal(b"0x10"), None);
    assert_eq!(parse_decimal(b"1.0"), None);
    assert_eq!(parse_decimal("١".as_bytes()), None);
    assert_eq!(parse_decimal(b"/"), None);
    assert_eq!(parse_decimal(b":"), None);
}

#[test]
fn decimal_parse_agrees_with_the_standard_parser() {
    for text in ["7", "+7", "-7", "", "+", "00012", "18446744073709551615", "18446744073709551616", "12x", " 12"] {
        assert_eq!(parse_decimal(text.as_bytes()), text.parse::<u64>().ok(), "{:?}", text);
    }
}

#[test]
fn decimal_writing_appends_the_digits() {
    for n in [0u64, 7, 9, 10, 11, 99, 100, 1050, 3000, 4294967296, u64::MAX] {
        let mut out = "n=".to_string();
        push_decimal(&mut out, n);
        assert_eq!(out, format!("n={}", n));
        assert_eq!(parse_decimal(out[2..].as_bytes()), Some(n));
    }
}

#[test]
fn lossy_decoding_replaces_what_is_malformed() {
    assert_eq!(decode_lossy(b""), "");
    assert_eq!(decode_lossy("héllo 😀".as_bytes()), "héllo 😀");
    assert_eq!(decode_lossy(b"a\xFFb"), "a\u{FFFD}b");
    assert_eq!(decode_lossy(b"\xF0\x9F\x98"), "\u{FFFD}");
    assert_eq!(decode_lossy(b"\xC0\x80"), "\u{FFFD}\u{FFFD}");
}

#[test]
fn prefixes_and_equality_of_bytes() {
    assert!(starts_with(b"data: x", b"data:"));
    assert!(starts_with(b"data:", b"data:"));
    assert!(starts_with(b"data:", b""));
    assert!(starts_with(b"", b""));
    assert!(!starts_with(b"dat", b"data:"));
    assert!(!starts_with(b"dataX", b"data:"));
    assert!(!starts_with(b"", b"d"));
    assert!(same_bytes(b"abc", b"abc"));
    assert!(same_bytes(b"", b""));
    assert!(!same_bytes(b"abc", b"abd"));
    assert!(!same_bytes(b"abc", b"ab"));
    assert!(!same_bytes(b"ab", b"abc"));
    assert_eq!(ascii_bytes("retry:"), b"retry:");
}
