use bookstore::claims::UserRole;
use bookstore::token::{JwtClaims, VerificationError, JWT_EXPIRATION_TIME};

const SECRET: &[u8] = b"test-signing-secret";

#[test]
fn issue_verify_round_trip() {
    let now: u64 = 1_700_000_000;
    let claims = JwtClaims::new("u1".to_string(), UserRole::User, now);
    assert_eq!(claims.exp, now + JWT_EXPIRATION_TIME);
    assert!(claims.exp > now);
    let token = claims.to_token(SECRET);
    let verified = JwtClaims::from_token(&token, SECRET, now).expect("fresh token must verify");
    assert_eq!(verified.id, "u1");
    assert!(matches!(verified.role, UserRole::User));
    assert_eq!(verified.exp, now + JWT_EXPIRATION_TIME);
}

#[test]
fn round_trip_admin_role() {
    let now: u64 = 10;
    let token = JwtClaims::new("admin-7".to_string(), UserRole::Admin, now).to_token(SECRET);
    let verified = JwtClaims::from_token(&token, SECRET, now).unwrap();
    assert_eq!(verified.id, "admin-7");
    assert!(matches!(verified.role, UserRole::Admin));
}

#[test]
fn token_shape_is_three_segments() {
    let token = JwtClaims::new("u1".to_string(), UserRole::User, 0).to_token(SECRET);
    let dots = token.bytes().filter(|&b| b == b'.').count();
    assert_eq!(dots, 2);
    // header segment is the base64url of {"alg":"HS256","typ":"JWT"}
    assert!(token.starts_with("eyJhbGciOiJIUzI1NiIsInR5cCI6IkpXVCJ9."));
}

#[test]
fn mutating_any_signature_byte_fails_verification() {
    let now: u64 = 1_700_000_000;
    let token = JwtClaims::new("u1".to_string(), UserRole::User, now).to_token(SECRET);
    let bytes = token.as_bytes();
    let sig_start = token.rfind('.').unwrap() + 1;
    assert!(sig_start < bytes.len());
    for i in sig_start..bytes.len() {
        let mut mutated = bytes.to_vec();
        mutated[i] ^= 1;
        let mutated = String::from_utf8(mutated).unwrap();
        let res = JwtClaims::from_token(&mutated, SECRET, now);
        assert!(
            matches!(res, Err(VerificationError::InvalidSignature)),
            "byte {} of the signature flipped, yet the token verified",
            i
        );
    }
}

#[test]
fn wrong_key_fails_verification() {
    let now: u64 = 1_700_000_000;
    let token = JwtClaims::new("u1".to_string(), UserRole::User, now).to_token(SECRET);
    let res = JwtClaims::from_token(&token, b"another-secret", now);
    assert!(matches!(res, Err(VerificationError::InvalidSignature)));
}

#[test]
fn expired_token_rejected() {
    let now: u64 = 1_700_000_000;
    // expiry one second in the past
    let claims = JwtClaims { id: "u1".to_string(), role: UserRole::User, exp: now - 1 };
    let token = claims.to_token(SECRET);
    let res = JwtClaims::from_token(&token, SECRET, now);
    assert!(matches!(res, Err(VerificationError::Expired)));
}

#[test]
fn elapsed_ttl_rejected() {
    let issued: u64 = 1_700_000_000;
    let token = JwtClaims::new("u1".to_string(), UserRole::User, issued).to_token(SECRET);
    // at the very moment of expiry the token is no longer valid
    let res = JwtClaims::from_token(&token, SECRET, issued + JWT_EXPIRATION_TIME);
    assert!(matches!(res, Err(VerificationError::Expired)));
    // one second earlier it still verifies
    let ok = JwtClaims::from_token(&token, SECRET, issued + JWT_EXPIRATION_TIME - 1);
    assert!(ok.is_ok());
}

#[test]
fn malformed_tokens_rejected() {
    let now: u64 = 0;
    for bad in [
        "",
        "abc",
        "a.b",
        "a.b.c",
        "..",
        "eyJhbGciOiJIUzI1NiIsInR5cCI6IkpXVCJ9..",
        "notbase64!.payload.sig",
    ] {
        let res = JwtClaims::from_token(bad, SECRET, now);
        assert!(
            matches!(res, Err(VerificationError::Malformed)),
            "{:?} was not rejected as malformed",
            bad
        );
    }
}

#[test]
fn tampered_payload_fails() {
    let now: u64 = 1_700_000_000;
    let token = JwtClaims::new("u1".to_string(), UserRole::User, now).to_token(SECRET);
    let parts: Vec<&str> = token.split('.').collect();
    assert_eq!(parts.len(), 3);
    // payload of a different subject, signature of the original
    let other = JwtClaims::new("u2".to_string(), UserRole::User, now).to_token(SECRET);
    let other_parts: Vec<&str> = other.split('.').collect();
    let forged = format!("{}.{}.{}", parts[0], other_parts[1], parts[2]);
    let res = JwtClaims::from_token(&forged, SECRET, now);
    assert!(matches!(res, Err(VerificationError::InvalidSignature)));
}
