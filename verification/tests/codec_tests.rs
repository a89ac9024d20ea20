use bookstore::base64url::{b64_decode, b64_encode};
use bookstore::claims::{claims_json, parse_claims, UserRole};
use bookstore::decimal::{parse_dec_u64, push_dec_digits};

#[test]
fn base64url_reference_vectors() {
    // RFC 4648 test vectors, unpadded
    let cases: [(&[u8], &[u8]); 7] = [
        (b"", b""),
        (b"f", b"Zg"),
        (b"fo", b"Zm8"),
        (b"foo", b"Zm9v"),
        (b"foob", b"Zm9vYg"),
        (b"fooba", b"Zm9vYmE"),
        (b"foobar", b"Zm9vYmFy"),
    ];
    for (plain, encoded) in cases {
        assert_eq!(b64_encode(plain), encoded.to_vec());
        assert_eq!(b64_decode(encoded), Some(plain.to_vec()));
    }
}

#[test]
fn base64url_uses_url_safe_alphabet() {
    // 0xfb 0xff encodes with '-' and '_', never '+' or '/'
    assert_eq!(b64_encode(&[0xfb, 0xff]), b"-_8".to_vec());
    assert_eq!(b64_decode(b"-_8"), Some(vec![0xfb, 0xff]));
}

#[test]
fn base64url_decoder_is_strict() {
    // length 4k + 1 is impossible
    assert_eq!(b64_decode(b"A"), None);
    assert_eq!(b64_decode(b"AAAAA"), None);
    // bytes outside the alphabet
    assert_eq!(b64_decode(b"Z!"), None);
    assert_eq!(b64_decode(b"Zg=="), None);
    // non-zero trailing bits: "Zh" carries the same byte as "Zg" plus a set bit
    assert_eq!(b64_decode(b"Zh"), None);
    assert_eq!(b64_decode(b"Zm9"), None);
}

#[test]
fn claims_payload_exact_text() {
    let payload = claims_json(b"u1", UserRole::User, 123);
    assert_eq!(payload, br#"{"id":"u1","role":"User","exp":123}"#.to_vec());
    let admin = claims_json(b"6d786a4c", UserRole::Admin, 0);
    assert_eq!(admin, br#"{"id":"6d786a4c","role":"Admin","exp":0}"#.to_vec());
}

#[test]
fn claims_payload_parses_back() {
    let payload = claims_json(b"u1", UserRole::User, 123);
    let (id, role, exp) = parse_claims(&payload).expect("canonical payload must parse");
    assert_eq!(id, b"u1".to_vec());
    assert!(matches!(role, UserRole::User));
    assert_eq!(exp, 123);
}

#[test]
fn claims_parser_is_strict() {
    for bad in [
        &b""[..],
        br#"{"id":"u1","role":"User","exp":123"#,    // no closing brace
        br#"{"id":"u1","role":"user","exp":123}"#,   // unknown role spelling
        br#"{"id":"u1","role":"Root","exp":123}"#,   // role outside the closed set
        br#"{"id":"u1","role":"User","exp":007}"#,   // leading zeros
        br#"{"id":"u1","role":"User","exp":}"#,      // no digits
        br#"{"id":"u1","role":"User","exp":12a}"#,   // not a digit
        br#"{"role":"User","id":"u1","exp":123}"#,   // field order fixed
        br#"{"id":"u\\1","role":"User","exp":1}"#,   // backslash in subject
        br#"{"id":"u1","role":"User","exp":18446744073709551616}"#,  // beyond u64
    ] {
        assert!(
            parse_claims(bad).is_none(),
            "{:?} was accepted",
            String::from_utf8_lossy(bad)
        );
    }
}

#[test]
fn claims_parser_accepts_max_expiry() {
    let payload = claims_json(b"u1", UserRole::User, u64::MAX);
    let (_, _, exp) = parse_claims(&payload).unwrap();
    assert_eq!(exp, u64::MAX);
}

#[test]
fn decimal_digits_exact() {
    let mut out: Vec<u8> = Vec::new();
    push_dec_digits(0, &mut out);
    assert_eq!(out, b"0".to_vec());
    let mut out: Vec<u8> = Vec::new();
    push_dec_digits(9_007_199, &mut out);
    assert_eq!(out, b"9007199".to_vec());
}

#[test]
fn decimal_parse_bounds() {
    assert_eq!(parse_dec_u64(b"0"), Some(0));
    assert_eq!(parse_dec_u64(b"18446744073709551615"), Some(u64::MAX));
    assert_eq!(parse_dec_u64(b"18446744073709551616"), None);
    assert_eq!(parse_dec_u64(b""), None);
    assert_eq!(parse_dec_u64(b"00"), None);
    assert_eq!(parse_dec_u64(b"1 "), None);
}
