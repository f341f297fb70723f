use rs_get::header::{header_text, is_success, is_text_value, parse_content_length, ResponseMeta};

#[test]
fn content_length_of_plain_digits() {
    assert_eq!(parse_content_length(b"9900"), Some(9900));
    assert_eq!(parse_content_length(b"0"), Some(0));
    assert_eq!(parse_content_length(b"7"), Some(7));
}

#[test]
fn content_length_with_leading_zeros() {
    assert_eq!(parse_content_length(b"007"), Some(7));
    assert_eq!(parse_content_length(b"0000000000000000000000000000012"), Some(12));
}

#[test]
fn content_length_with_plus_sign() {
    assert_eq!(parse_content_length(b"+5"), Some(5));
    assert_eq!(parse_content_length(b"+0"), Some(0));
}

#[test]
fn content_length_at_the_limit() {
    assert_eq!(parse_content_length(b"18446744073709551615"), Some(u64::MAX));
    assert_eq!(parse_content_length(b"18446744073709551616"), None);
    assert_eq!(parse_content_length(b"18446744073709551620"), None);
    assert_eq!(parse_content_length(b"99999999999999999999"), None);
    assert_eq!(parse_content_length(b"184467440737095516150"), None);
}

#[test]
fn content_length_refuses_what_is_no_number() {
    assert_eq!(parse_content_length(b""), None);
    assert_eq!(parse_content_length(b"+"), None);
    assert_eq!(parse_content_length(b"-"), None);
    assert_eq!(parse_content_length(b"-1"), None);
    assert_eq!(parse_content_length(b"++1"), None);
    assert_eq!(parse_content_length(b"1+"), None);
    assert_eq!(parse_content_length(b" 12"), None);
    assert_eq!(parse_content_length(b"12 "), None);
    assert_eq!(parse_content_length(b"12a"), None);
    assert_eq!(parse_content_length(b"1.5"), None);
    assert_eq!(parse_content_length(b"0x10"), None);
    assert_eq!(parse_content_length(b"1_000"), None);
    assert_eq!(parse_content_length(&[0x31, 0xff]), None);
    assert_eq!(parse_content_length(b"99999999999999999999x"), None);
}

#[test]
fn content_length_agrees_with_the_standard_parser() {
    let values: [&str; 16] = [
        "", "+", "-", "0", "+0", "-0", "12", "+12", "0012", "12 ", " 12", "1e3",
        "18446744073709551615", "18446744073709551616", "+18446744073709551615", "٣",
    ];
    for value in values {
        assert_eq!(parse_content_length(value.as_bytes()), value.parse::<u64>().ok());
    }
}

#[test]
fn header_text_of_visible_ascii() {
    assert_eq!(header_text(b"text/html; charset=utf-8"), Some(String::from("text/html; charset=utf-8")));
    assert_eq!(header_text(b""), Some(String::new()));
    assert_eq!(header_text(b"a\tb"), Some(String::from("a\tb")));
    assert_eq!(header_text(b" ~"), Some(String::from(" ~")));
}

#[test]
fn header_text_refuses_other_bytes() {
    assert_eq!(header_text(&[0x7f]), None);
    assert_eq!(header_text(&[0x1f]), None);
    assert_eq!(header_text(b"a\nb"), None);
    assert_eq!(header_text(&[b'a', 0x80]), None);
    assert_eq!(header_text("é".as_bytes()), None);
    assert_eq!(header_text(&[0]), None);
}

#[test]
fn header_text_boundaries() {
    assert!(is_text_value(&[32]));
    assert!(is_text_value(&[126]));
    assert!(is_text_value(&[9]));
    assert!(!is_text_value(&[31]));
    assert!(!is_text_value(&[127]));
    assert!(!is_text_value(&[8]));
    assert!(!is_text_value(&[10]));
    assert!(!is_text_value(&[255]));
    assert!(is_text_value(&[]));
}

#[test]
fn header_text_agrees_with_header_values() {
    let values: [&[u8]; 6] = [b"text/plain", b"", b"a\tb", &[b'a', 0x80], &[0xff], b"x y"];
    for value in values {
        let parsed = reqwest::header::HeaderValue::from_bytes(value).unwrap();
        assert_eq!(header_text(value), parsed.to_str().ok().map(String::from));
    }
}

#[test]
fn success_is_200_to_299() {
    assert!(is_success(200));
    assert!(is_success(204));
    assert!(is_success(299));
    assert!(!is_success(199));
    assert!(!is_success(300));
    assert!(!is_success(404));
    assert!(!is_success(500));
    assert!(!is_success(0));
    assert!(!is_success(u16::MAX));
}

#[test]
fn success_agrees_with_status_codes() {
    let mut code: u16 = 100;
    while code < 1000 {
        let status = reqwest::StatusCode::from_u16(code).unwrap();
        assert_eq!(is_success(code), status.is_success());
        code += 1;
    }
}

#[test]
fn metadata_from_headers() {
    let meta = ResponseMeta::from_headers(200, Some(b"9900"), Some(b"application/gzip"));
    assert_eq!(meta.status, 200);
    assert_eq!(meta.content_length, Some(9900));
    assert_eq!(meta.content_type, Some(String::from("application/gzip")));
    assert!(meta.is_success());
}

#[test]
fn metadata_without_headers() {
    let meta = ResponseMeta::from_headers(404, None, None);
    assert_eq!(meta.status, 404);
    assert_eq!(meta.content_length, None);
    assert_eq!(meta.content_type, None);
    assert!(!meta.is_success());
}

#[test]
fn metadata_with_unreadable_headers() {
    let meta = ResponseMeta::from_headers(200, Some(b"many"), Some(&[0xc3, 0xa9]));
    assert_eq!(meta.content_length, None);
    assert_eq!(meta.content_type, None);
}
