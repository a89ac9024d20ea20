//! The credential codec: issuing and verifying signed bearer tokens.
//!
//! A token is `H.P.S` — the base64url header, the base64url claims payload,
//! and the base64url HMAC-SHA256 tag over `H.P` under the process-wide
//! secret. Verification checks the structure, the header, the payload, the
//! tag, and finally that the expiry lies strictly in the future.

use vstd::prelude::*;
use crate::base64url::{
    b64_encode, b64_decode, lemma_b64_encode_text, lemma_b64_round_trip, spec_b64_decode,
    spec_b64_encode,
};
use crate::claims::{
    claims_json, lemma_parse_claims_json, parse_claims, spec_claims_json, spec_parse_claims,
    UserRole,
};
use crate::scan::{
    bytes_eq, find_byte, find_byte_from, lemma_find_byte_after, push_bytes,
};
use crate::text::{
    ascii_bytes_of, ascii_to_string, chars_of_bytes, lemma_ascii_bytes_roundtrip,
    lemma_subject_bytes_wf, lemma_subject_wf_bytes, subject_wf, subject_wf_bytes,
};

verus! {

/// How long an issued credential stays valid, in seconds (30 days).
pub const JWT_EXPIRATION_TIME: u64 = 60 * 60 * 24 * 30;

/// The claims carried by a credential: subject identifier, role and expiry
/// (seconds since the epoch). A credential is immutable once issued.
#[derive(Debug, Clone)]
pub struct JwtClaims {
    /// Opaque account identifier.
    pub id: String,
    /// Role fixed at issuance; re-read from the account store only for the
    /// suspension check, never to refresh this field.
    pub role: UserRole,
    /// Absolute expiry; the credential is valid strictly before this time.
    pub exp: u64,
}

/// Why a token failed verification. Callers collapse all three onto one
/// outward "unauthenticated" result; the distinction stays internal.
#[derive(Clone, Copy, Debug, PartialEq, Eq, Structural)]
pub enum VerificationError {
    /// Not three dot-separated segments of the expected shape.
    Malformed,
    /// The tag does not match the signed content under the given key.
    InvalidSignature,
    /// Structure and tag are good, but the expiry is not in the future.
    Expired,
}

/// The fixed token header, `{"alg":"HS256","typ":"JWT"}`.
pub open spec fn jwt_header() -> Seq<u8> {
    seq![
        123u8, 34u8, 97u8, 108u8, 103u8, 34u8, 58u8, 34u8, 72u8, 83u8, 50u8, 53u8, 54u8, 34u8,
        44u8, 34u8, 116u8, 121u8, 112u8, 34u8, 58u8, 34u8, 74u8, 87u8, 84u8, 34u8, 125u8,
    ]
}

/// The HMAC-SHA256 tag of a message under a key. Left uninterpreted: the
/// trusted wrapper below ties it to the real computation, so the only facts
/// available are that it is a function of key and message and is 32 bytes.
pub uninterp spec fn hmac_sha256_of(key: Seq<u8>, msg: Seq<u8>) -> Seq<u8>;

/// Relies on `Hmac<Sha256>` from the `hmac` and `sha2` crates: the tag is a
/// pure function of key and message and is 32 bytes long; for HMAC,
/// `new_from_slice` accepts a key of any length and never fails.
#[verifier::external_body]
fn hmac_sha256(key: &[u8], msg: &[u8]) -> (r: Vec<u8>)
    ensures
        r@ == hmac_sha256_of(key@, msg@),
        r@.len() == 32,
{
    let mut mac = <hmac::Hmac<sha2::Sha256> as hmac::Mac>::new_from_slice(key).unwrap();
    hmac::Mac::update(&mut mac, msg);
    hmac::Mac::finalize(mac).into_bytes().to_vec()
}

/// The signed part of a token: header segment, dot, payload segment.
pub open spec fn spec_signing_input(id: Seq<u8>, role: UserRole, exp: u64) -> Seq<u8> {
    spec_b64_encode(jwt_header()) + seq![46u8] + spec_b64_encode(spec_claims_json(id, role, exp))
}

/// The full wire token for given subject bytes, role, expiry and key.
pub open spec fn spec_token_bytes(id: Seq<u8>, role: UserRole, exp: u64, key: Seq<u8>) -> Seq<u8> {
    spec_signing_input(id, role, exp) + seq![46u8] + spec_b64_encode(
        hmac_sha256_of(key, spec_signing_input(id, role, exp)),
    )
}

/// What verification returns on any byte string, under a key, at a time:
/// the claims triple, or the first failure in verification order.
pub open spec fn spec_verify(t: Seq<u8>, key: Seq<u8>, now: u64) -> Result<
    (Seq<u8>, UserRole, u64),
    VerificationError,
> {
    match find_byte(t, 46u8) {
        None => Err(VerificationError::Malformed),
        Some(d1) => {
            let rest = t.skip(d1 + 1);
            match find_byte(rest, 46u8) {
                None => Err(VerificationError::Malformed),
                Some(d2) => {
                    if t.take(d1) != spec_b64_encode(jwt_header()) {
                        Err(VerificationError::Malformed)
                    } else {
                        match spec_b64_decode(rest.take(d2)) {
                            None => Err(VerificationError::Malformed),
                            Some(payload) => match spec_parse_claims(payload) {
                                None => Err(VerificationError::Malformed),
                                Some((id, role, exp)) => {
                                    if rest.skip(d2 + 1) != spec_b64_encode(
                                        hmac_sha256_of(key, t.take(d1 + 1 + d2)),
                                    ) {
                                        Err(VerificationError::InvalidSignature)
                                    } else if exp <= now {
                                        Err(VerificationError::Expired)
                                    } else {
                                        Ok((id, role, exp))
                                    }
                                },
                            },
                        }
                    }
                },
            }
        },
    }
}

/// Where a verified token's signature segment begins (just after the second
/// dot).
pub open spec fn spec_sig_start(t: Seq<u8>) -> int {
    let d1 = find_byte(t, 46u8).unwrap();
    let d2 = find_byte(t.skip(d1 + 1), 46u8).unwrap();
    d1 + 1 + d2 + 1
}

/// Verifying a token that was issued under the same key returns exactly the
/// issued claims, unless the expiry has been reached, in which case it fails
/// with the expiry-class error.
#[verifier::rlimit(100)]
pub proof fn lemma_verify_issued(id: Seq<u8>, role: UserRole, exp: u64, key: Seq<u8>, now: u64)
    requires
        subject_wf_bytes(id),
    ensures
        spec_verify(spec_token_bytes(id, role, exp, key), key, now) == if exp > now {
            Ok::<(Seq<u8>, UserRole, u64), VerificationError>((id, role, exp))
        } else {
            Err::<(Seq<u8>, UserRole, u64), VerificationError>(VerificationError::Expired)
        },
{
    let h = spec_b64_encode(jwt_header());
    let json = spec_claims_json(id, role, exp);
    let p = spec_b64_encode(json);
    let si = spec_signing_input(id, role, exp);
    let s = spec_b64_encode(hmac_sha256_of(key, si));
    let t = spec_token_bytes(id, role, exp, key);

    // the first dot ends the header segment
    lemma_b64_encode_text(jwt_header());
    assert forall|j: int| 0 <= j < h.len() implies h[j] != 46u8 by {
        assert(spec_b64_encode(jwt_header())[j] != 46u8);
    }
    assert(t =~= h + seq![46u8] + (p + seq![46u8] + s));
    lemma_find_byte_after(h, 46u8, p + seq![46u8] + s);
    assert(find_byte(t, 46u8) == Some(h.len() as int));
    assert(t.take(h.len() as int) == h);
    let rest = t.skip(h.len() as int + 1);
    assert(rest == p + seq![46u8] + s);

    // the second dot ends the payload segment
    lemma_b64_encode_text(json);
    assert forall|j: int| 0 <= j < p.len() implies p[j] != 46u8 by {
        assert(spec_b64_encode(json)[j] != 46u8);
    }
    lemma_find_byte_after(p, 46u8, s);
    assert(find_byte(rest, 46u8) == Some(p.len() as int));
    assert(rest.take(p.len() as int) == p);
    assert(rest.skip(p.len() as int + 1) == s);

    // the payload decodes and parses back to the issued claims
    lemma_b64_round_trip(json);
    lemma_parse_claims_json(id, role, exp);

    // the signed part is the signing input, so the tag matches
    assert(t.take(h.len() as int + 1 + p.len() as int) =~= si);
}

/// Round-trip law: a token issued now for a well-formed subject and a role,
/// verified under the same key at any time before the expiry, yields exactly
/// that subject and role, and the expiry lies strictly after the issue time.
pub proof fn lemma_issue_verify_round_trip(
    id: Seq<char>,
    role: UserRole,
    now: u64,
    at: u64,
    key: Seq<u8>,
)
    requires
        subject_wf(id),
        now + JWT_EXPIRATION_TIME <= u64::MAX,
        at < now + JWT_EXPIRATION_TIME,
    ensures
        now + JWT_EXPIRATION_TIME > now,
        spec_verify(
            spec_token_bytes(ascii_bytes_of(id), role, (now + JWT_EXPIRATION_TIME) as u64, key),
            key,
            at,
        ) == Ok::<(Seq<u8>, UserRole, u64), VerificationError>(
            (ascii_bytes_of(id), role, (now + JWT_EXPIRATION_TIME) as u64),
        ),
{
    lemma_subject_wf_bytes(id);
    lemma_verify_issued(ascii_bytes_of(id), role, (now + JWT_EXPIRATION_TIME) as u64, key, at);
}

/// Expiry law: a token whose expiry is not strictly in the future at
/// verification time fails with the expiry-class error, whatever the key it
/// was signed with.
pub proof fn lemma_expired_token_rejected(
    id: Seq<char>,
    role: UserRole,
    exp: u64,
    key: Seq<u8>,
    now: u64,
)
    requires
        subject_wf(id),
        exp <= now,
    ensures
        spec_verify(spec_token_bytes(ascii_bytes_of(id), role, exp, key), key, now) == Err::<
            (Seq<u8>, UserRole, u64),
            VerificationError,
        >(VerificationError::Expired),
{
    lemma_subject_wf_bytes(id);
    lemma_verify_issued(ascii_bytes_of(id), role, exp, key, now);
}

/// Tamper law: changing any single byte of the signature segment of a token
/// that verifies makes verification fail with the signature-class error.
#[verifier::rlimit(100)]
pub proof fn lemma_signature_mutation_fails(t: Seq<u8>, key: Seq<u8>, now: u64, i: int, b: u8)
    requires
        spec_verify(t, key, now) is Ok,
        spec_sig_start(t) <= i < t.len(),
        b != t[i],
    ensures
        spec_verify(t.update(i, b), key, now) == Err::<(Seq<u8>, UserRole, u64), VerificationError>(
            VerificationError::InvalidSignature,
        ),
{
    let d1 = find_byte(t, 46u8).unwrap();
    crate::scan::lemma_find_byte_spec(t, 46u8);
    let rest = t.skip(d1 + 1);
    let d2 = find_byte(rest, 46u8).unwrap();
    crate::scan::lemma_find_byte_spec(rest, 46u8);
    let t2 = t.update(i, b);

    // the two dots sit before the mutated byte, so the split is unchanged
    assert(t2[d1] == 46u8);
    assert forall|j: int| 0 <= j < d1 implies t2[j] != 46u8 by {
        assert(t2[j] == t[j]);
    }
    crate::scan::lemma_find_byte_from_witness(t2, 46u8, d1);
    let rest2 = t2.skip(d1 + 1);
    assert(rest2 =~= rest.update(i - d1 - 1, b));
    assert(rest2[d2] == rest[d2]);
    assert forall|j: int| 0 <= j < d2 implies rest2[j] != 46u8 by {
        assert(rest2[j] == rest[j]);
    }
    crate::scan::lemma_find_byte_from_witness(rest2, 46u8, d2);

    // header, payload and signed part are untouched
    assert(t2.take(d1) =~= t.take(d1));
    assert(rest2.take(d2) =~= rest.take(d2));
    assert(t2.take(d1 + 1 + d2) =~= t.take(d1 + 1 + d2));

    // the signature segment differs from the (unchanged) expected tag
    let sig = rest.skip(d2 + 1);
    let sig2 = rest2.skip(d2 + 1);
    assert(sig == spec_b64_encode(hmac_sha256_of(key, t.take(d1 + 1 + d2))));
    let k = i - d1 - 1 - (d2 + 1);
    assert(sig2[k] == b);
    assert(sig[k] == t[i]);
    assert(sig2 != sig);
}

/// Bytes of the fixed token header.
fn header_bytes() -> (r: Vec<u8>)
    ensures
        r@ == jwt_header(),
{
    let mut v: Vec<u8> = Vec::new();
    v.push(123);
    v.push(34);
    v.push(97);
    v.push(108);
    v.push(103);
    v.push(34);
    v.push(58);
    v.push(34);
    v.push(72);
    v.push(83);
    v.push(50);
    v.push(53);
    v.push(54);
    v.push(34);
    v.push(44);
    v.push(34);
    v.push(116);
    v.push(121);
    v.push(112);
    v.push(34);
    v.push(58);
    v.push(34);
    v.push(74);
    v.push(87);
    v.push(84);
    v.push(34);
    v.push(125);
    proof {
        assert(v@ =~= jwt_header());
    }
    v
}

impl JwtClaims {
    /// Fresh claims for an account: the expiry is the issue time plus the
    /// fixed TTL.
    pub fn new(id: String, role: UserRole, now: u64) -> (c: Self)
        requires
            now + JWT_EXPIRATION_TIME <= u64::MAX,
        ensures
            c.id@ == id@,
            c.role == role,
            c.exp == now + JWT_EXPIRATION_TIME,
    {
        JwtClaims { id, role, exp: now + JWT_EXPIRATION_TIME }
    }

    /// Sign these claims under `key` and return the wire token.
    pub fn to_token(&self, key: &[u8]) -> (t: String)
        requires
            subject_wf(self.id@),
        ensures
            vstd::utf8::encode_utf8(t@) == spec_token_bytes(
                ascii_bytes_of(self.id@),
                self.role,
                self.exp,
                key@,
            ),
            t@ == chars_of_bytes(
                spec_token_bytes(ascii_bytes_of(self.id@), self.role, self.exp, key@),
            ),
    {
        proof {
            lemma_subject_wf_bytes(self.id@);
            broadcast use vstd::string::is_ascii_spec_bytes;

            vstd::utf8::is_ascii_chars_encode_utf8(self.id@);
        }
        let idb = self.id.as_str().as_bytes();
        proof {
            assert(idb@ =~= ascii_bytes_of(self.id@));
        }
        let payload = claims_json(idb, self.role, self.exp);
        let hb = header_bytes();
        let hseg = b64_encode(hb.as_slice());
        let pseg = b64_encode(payload.as_slice());
        let mut signing: Vec<u8> = Vec::new();
        push_bytes(&mut signing, hseg.as_slice());
        signing.push(46);
        push_bytes(&mut signing, pseg.as_slice());
        proof {
            assert(signing@ =~= spec_signing_input(ascii_bytes_of(self.id@), self.role, self.exp));
        }
        let ghost signing_view = signing@;
        let mac = hmac_sha256(key, signing.as_slice());
        let sseg = b64_encode(mac.as_slice());
        let mut out = signing;
        out.push(46);
        push_bytes(&mut out, sseg.as_slice());
        let ghost tb = spec_token_bytes(ascii_bytes_of(self.id@), self.role, self.exp, key@);
        proof {
            assert(out@ =~= tb);
            lemma_b64_encode_text(jwt_header());
            lemma_b64_encode_text(spec_claims_json(ascii_bytes_of(self.id@), self.role, self.exp));
            lemma_b64_encode_text(hmac_sha256_of(key@, signing_view));
            assert forall|i: int| 0 <= i < out@.len() implies #[trigger] out@[i] < 0x80 by {
                let h = spec_b64_encode(jwt_header());
                let p = spec_b64_encode(
                    spec_claims_json(ascii_bytes_of(self.id@), self.role, self.exp),
                );
                let s = spec_b64_encode(hmac_sha256_of(key@, signing_view));
                if i < h.len() {
                    assert(out@[i] == h[i]);
                } else if i == h.len() {
                    assert(out@[i] == 46u8);
                } else if i < h.len() + 1 + p.len() {
                    assert(out@[i] == p[i - h.len() - 1]);
                } else if i == h.len() + 1 + p.len() {
                    assert(out@[i] == 46u8);
                } else {
                    assert(out@[i] == s[i - (h.len() + 1 + p.len() + 1)]);
                }
            }
            lemma_ascii_bytes_roundtrip(tb);
        }
        ascii_to_string(out)
    }

    /// Verify a wire token under `key` at time `now`.
    pub fn from_token(token: &str, key: &[u8], now: u64) -> (r: Result<JwtClaims, VerificationError>)
        ensures
            match r {
                Ok(c) => {
                    &&& spec_verify(vstd::utf8::encode_utf8(token@), key@, now) matches Ok(cv)
                    &&& c.id@ == chars_of_bytes(cv.0)
                    &&& ascii_bytes_of(c.id@) == cv.0
                    &&& c.role == cv.1
                    &&& c.exp == cv.2
                    &&& subject_wf(c.id@)
                },
                Err(e) => spec_verify(vstd::utf8::encode_utf8(token@), key@, now) == Err::<
                    (Seq<u8>, UserRole, u64),
                    VerificationError,
                >(e),
            },
    {
        verify_token_bytes(token.as_bytes(), key, now)
    }
}

/// Verify a token given as raw bytes (as it arrives in a request header).
pub fn verify_token_bytes(t: &[u8], key: &[u8], now: u64) -> (r: Result<
    JwtClaims,
    VerificationError,
>)
    ensures
        match r {
            Ok(c) => {
                &&& spec_verify(t@, key@, now) matches Ok(cv)
                &&& c.id@ == chars_of_bytes(cv.0)
                &&& ascii_bytes_of(c.id@) == cv.0
                &&& c.role == cv.1
                &&& c.exp == cv.2
                &&& subject_wf(c.id@)
            },
            Err(e) => spec_verify(t@, key@, now) == Err::<(Seq<u8>, UserRole, u64), VerificationError>(e),
        },
{
    let n = t.len();
    proof {
        assert(t@.skip(0) =~= t@);
    }
    let d1 = match find_byte_from(t, 0, 46) {
        Some(d) => d,
        None => {
            return Err(VerificationError::Malformed);
        },
    };
    let e = match find_byte_from(t, d1 + 1, 46) {
        Some(e) => e,
        None => {
            return Err(VerificationError::Malformed);
        },
    };
    let ghost rest = t@.skip(d1 as int + 1);
    let ghost d2 = e - d1 - 1;
    let hseg = vstd::slice::slice_subrange(t, 0, d1);
    proof {
        assert(hseg@ =~= t@.take(d1 as int));
    }
    let hb = header_bytes();
    let hexp = b64_encode(hb.as_slice());
    if !bytes_eq(hseg, hexp.as_slice()) {
        return Err(VerificationError::Malformed);
    }
    let pseg = vstd::slice::slice_subrange(t, d1 + 1, e);
    proof {
        assert(pseg@ =~= rest.take(d2 as int));
    }
    let payload = match b64_decode(pseg) {
        Some(p) => p,
        None => {
            return Err(VerificationError::Malformed);
        },
    };
    let parsed = match parse_claims(payload.as_slice()) {
        Some(c) => c,
        None => {
            return Err(VerificationError::Malformed);
        },
    };
    let signed = vstd::slice::slice_subrange(t, 0, e);
    proof {
        assert(signed@ =~= t@.take(d1 as int + 1 + d2));
    }
    let mac = hmac_sha256(key, signed);
    let sexp = b64_encode(mac.as_slice());
    let sig = vstd::slice::slice_subrange(t, e + 1, n);
    proof {
        assert(sig@ =~= rest.skip(d2 as int + 1));
    }
    if !bytes_eq(sig, sexp.as_slice()) {
        return Err(VerificationError::InvalidSignature);
    }
    let (idb, role, exp) = parsed;
    if exp <= now {
        return Err(VerificationError::Expired);
    }
    proof {
        assert(subject_wf_bytes(idb@));
        assert forall|i: int| 0 <= i < idb@.len() implies #[trigger] idb@[i] < 0x80 by {
            assert(crate::text::byte_is_subject(idb@[i]));
        }
        lemma_subject_bytes_wf(idb@);
    }
    let id = ascii_to_string(idb);
    Ok(JwtClaims { id, role, exp })
}

} // verus!
