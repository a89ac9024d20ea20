//! The claims payload of a credential and its canonical JSON form.
//!
//! A payload is exactly `{"id":"S","role":"R","exp":N}`: `S` the subject
//! (printable ASCII without quote or backslash), `R` one of the two role
//! names, `N` the expiry in decimal seconds. The parser is strict and accepts
//! nothing but this canonical form, so parsing is the exact inverse of
//! serialization.

use vstd::prelude::*;
use crate::decimal::{
    is_dec_numeral, lemma_dec_digits_value, parse_dec_u64, push_dec_digits, spec_dec_digits,
    spec_dec_value,
};
use crate::scan::{
    find_byte, has_prefix_at, find_byte_from, lemma_find_byte_after, lemma_starts_with_concat,
    push_bytes, starts_with,
};
use crate::text::{byte_is_subject, subject_wf_bytes};

verus! {

/// The role carried by an account and by every credential; a closed set.
#[derive(Clone, Copy, Debug, PartialEq, Eq, Structural)]
pub enum UserRole {
    /// Regular user.
    User,
    /// Administrator.
    Admin,
}

/// `{"id":"` — the opening brace and the subject key.
pub open spec fn json_id_key() -> Seq<u8> {
    seq![123u8, 34u8, 105u8, 100u8, 34u8, 58u8, 34u8]
}

/// `","role":"` — closes the subject string and opens the role string.
pub open spec fn json_role_key() -> Seq<u8> {
    seq![34u8, 44u8, 34u8, 114u8, 111u8, 108u8, 101u8, 34u8, 58u8, 34u8]
}

/// `","exp":` — closes the role string and names the expiry field.
pub open spec fn json_exp_key() -> Seq<u8> {
    seq![34u8, 44u8, 34u8, 101u8, 120u8, 112u8, 34u8, 58u8]
}

/// The serialized name of a role.
pub open spec fn role_name(role: UserRole) -> Seq<u8> {
    match role {
        UserRole::User => seq![85u8, 115u8, 101u8, 114u8],
        UserRole::Admin => seq![65u8, 100u8, 109u8, 105u8, 110u8],
    }
}

/// The canonical claims payload for subject bytes `id`, role and expiry.
pub open spec fn spec_claims_json(id: Seq<u8>, role: UserRole, exp: u64) -> Seq<u8> {
    json_id_key() + id + json_role_key() + role_name(role) + json_exp_key() + spec_dec_digits(
        exp as int,
    ) + seq![125u8]
}

/// Strict parse of a claims payload; `None` on anything that is not the
/// canonical form of a well-formed subject, known role and in-range expiry.
pub open spec fn spec_parse_claims(p: Seq<u8>) -> Option<(Seq<u8>, UserRole, u64)> {
    if !starts_with(p, json_id_key()) {
        None
    } else {
        let r1 = p.skip(7);
        match find_byte(r1, 34u8) {
            None => None,
            Some(q) => {
                let id = r1.take(q);
                let r2 = r1.skip(q);
                if !subject_wf_bytes(id) || !starts_with(r2, json_role_key()) {
                    None
                } else {
                    let r3 = r2.skip(10);
                    let tail = if starts_with(r3, role_name(UserRole::User)) {
                        Some((UserRole::User, r3.skip(4)))
                    } else if starts_with(r3, role_name(UserRole::Admin)) {
                        Some((UserRole::Admin, r3.skip(5)))
                    } else {
                        None
                    };
                    match tail {
                        Some((role, r4)) => match spec_parse_exp(r4) {
                            Some(exp) => Some((id, role, exp)),
                            None => None,
                        },
                        None => None,
                    }
                }
            },
        }
    }
}

/// The tail of a payload after the role name: the expiry key, a canonical
/// numeral that fits a `u64`, and the closing brace.
pub open spec fn spec_parse_exp(r: Seq<u8>) -> Option<u64> {
    if !starts_with(r, json_exp_key()) {
        None
    } else {
        let r5 = r.skip(8);
        if r5.len() >= 2 && r5.last() == 125u8 && is_dec_numeral(r5.drop_last()) && spec_dec_value(
            r5.drop_last(),
        ) <= u64::MAX {
            Some(spec_dec_value(r5.drop_last()) as u64)
        } else {
            None
        }
    }
}

/// Parsing inverts serialization: the canonical payload of any well-formed
/// subject, role and expiry parses back to exactly those claims.
#[verifier::rlimit(100)]
pub proof fn lemma_parse_claims_json(id: Seq<u8>, role: UserRole, exp: u64)
    requires
        subject_wf_bytes(id),
    ensures
        spec_parse_claims(spec_claims_json(id, role, exp)) == Some((id, role, exp)),
{
    let p = spec_claims_json(id, role, exp);
    let tail1 = id + json_role_key() + role_name(role) + json_exp_key() + spec_dec_digits(
        exp as int,
    ) + seq![125u8];
    assert(p =~= json_id_key() + tail1);
    lemma_starts_with_concat(json_id_key(), tail1);
    assert(p.skip(7) == tail1);

    // the first quote after the subject key closes the subject
    let tailq = json_role_key().skip(1) + role_name(role) + json_exp_key() + spec_dec_digits(
        exp as int,
    ) + seq![125u8];
    assert(tail1 =~= id + seq![34u8] + tailq);
    assert forall|j: int| 0 <= j < id.len() implies id[j] != 34u8 by {
        assert(byte_is_subject(id[j]));
    }
    lemma_find_byte_after(id, 34u8, tailq);
    assert(find_byte(tail1, 34u8) == Some(id.len() as int));
    assert(tail1.take(id.len() as int) == id);

    // the role key follows, quote included
    let r2 = tail1.skip(id.len() as int);
    let tail2 = role_name(role) + json_exp_key() + spec_dec_digits(exp as int) + seq![125u8];
    assert(r2 =~= json_role_key() + tail2);
    lemma_starts_with_concat(json_role_key(), tail2);
    assert(r2.skip(10) == tail2);

    // the role name follows; the two names differ in their first byte
    let tail3 = json_exp_key() + spec_dec_digits(exp as int) + seq![125u8];
    assert(tail2 =~= role_name(role) + tail3);
    lemma_starts_with_concat(role_name(role), tail3);
    match role {
        UserRole::User => {
            assert(tail2.skip(4) == tail3);
        },
        UserRole::Admin => {
            assert(!starts_with(tail2, role_name(UserRole::User))) by {
                assert(tail2[0] == 65u8);
                if starts_with(tail2, role_name(UserRole::User)) {
                    assert(tail2.take(4)[0] == 85u8);
                }
            }
            assert(tail2.skip(5) == tail3);
        },
    }

    // the expiry key, digits and closing brace end the payload
    let tail4 = spec_dec_digits(exp as int) + seq![125u8];
    assert(tail3 =~= json_exp_key() + tail4);
    lemma_starts_with_concat(json_exp_key(), tail4);
    assert(tail3.skip(8) == tail4);
    lemma_dec_digits_value(exp as int);
    assert(tail4.len() >= 2);
    assert(tail4.last() == 125u8);
    assert(tail4.drop_last() =~= spec_dec_digits(exp as int));
    assert(spec_parse_exp(tail3) == Some(exp));
}

/// Bytes of `{"id":"`.
pub fn id_key_bytes() -> (r: Vec<u8>)
    ensures
        r@ == json_id_key(),
{
    let mut v: Vec<u8> = Vec::new();
    v.push(123);
    v.push(34);
    v.push(105);
    v.push(100);
    v.push(34);
    v.push(58);
    v.push(34);
    proof {
        assert(v@ =~= json_id_key());
    }
    v
}

/// Bytes of `","role":"`.
pub fn role_key_bytes() -> (r: Vec<u8>)
    ensures
        r@ == json_role_key(),
{
    let mut v: Vec<u8> = Vec::new();
    v.push(34);
    v.push(44);
    v.push(34);
    v.push(114);
    v.push(111);
    v.push(108);
    v.push(101);
    v.push(34);
    v.push(58);
    v.push(34);
    proof {
        assert(v@ =~= json_role_key());
    }
    v
}

/// Bytes of `","exp":`.
pub fn exp_key_bytes() -> (r: Vec<u8>)
    ensures
        r@ == json_exp_key(),
{
    let mut v: Vec<u8> = Vec::new();
    v.push(34);
    v.push(44);
    v.push(34);
    v.push(101);
    v.push(120);
    v.push(112);
    v.push(34);
    v.push(58);
    proof {
        assert(v@ =~= json_exp_key());
    }
    v
}

/// Bytes of a role's serialized name.
pub fn role_name_bytes(role: UserRole) -> (r: Vec<u8>)
    ensures
        r@ == role_name(role),
{
    let mut v: Vec<u8> = Vec::new();
    match role {
        UserRole::User => {
            v.push(85);
            v.push(115);
            v.push(101);
            v.push(114);
        },
        UserRole::Admin => {
            v.push(65);
            v.push(100);
            v.push(109);
            v.push(105);
            v.push(110);
        },
    }
    proof {
        assert(v@ =~= role_name(role));
    }
    v
}

/// Serialize a claims payload from its parts.
pub fn claims_json(id: &[u8], role: UserRole, exp: u64) -> (r: Vec<u8>)
    ensures
        r@ == spec_claims_json(id@, role, exp),
{
    let mut out: Vec<u8> = Vec::new();
    let idk = id_key_bytes();
    let rk = role_key_bytes();
    let rn = role_name_bytes(role);
    let ek = exp_key_bytes();
    push_bytes(&mut out, idk.as_slice());
    push_bytes(&mut out, id);
    push_bytes(&mut out, rk.as_slice());
    push_bytes(&mut out, rn.as_slice());
    push_bytes(&mut out, ek.as_slice());
    push_dec_digits(exp, &mut out);
    out.push(125);
    proof {
        assert(out@ =~= spec_claims_json(id@, role, exp));
    }
    out
}

/// Do all bytes satisfy the subject condition?
pub fn check_subject_bytes(s: &[u8]) -> (r: bool)
    ensures
        r == subject_wf_bytes(s@),
{
    let n = s.len();
    let mut k: usize = 0;
    while k < n
        invariant
            k <= n,
            n == s@.len(),
            forall|j: int| 0 <= j < k ==> byte_is_subject(#[trigger] s@[j]),
        decreases n - k,
    {
        let b = s[k];
        if b < 0x20 || b > 0x7e || b == 34 || b == 92 {
            return false;
        }
        k += 1;
    }
    true
}

/// Strictly parse a claims payload into subject bytes, role and expiry.
#[verifier::rlimit(100)]
pub fn parse_claims(p: &[u8]) -> (r: Option<(Vec<u8>, UserRole, u64)>)
    ensures
        match r {
            Some(c) => spec_parse_claims(p@) == Some((c.0@, c.1, c.2)) && subject_wf_bytes(c.0@),
            None => spec_parse_claims(p@) is None,
        },
{
    let n = p.len();
    let idk = id_key_bytes();
    proof {
        assert(n == p@.len());
        assert(p@.skip(0) =~= p@);
    }
    if !has_prefix_at(p, 0, idk.as_slice()) {
        return None;
    }
    let q = match find_byte_from(p, 7, 34) {
        Some(q) => q,
        None => {
            return None;
        },
    };
    let ghost r1 = p@.skip(7);
    proof {
        assert(r1.take(q - 7) =~= p@.subrange(7, q as int));
    }
    let id = vstd::slice::slice_to_vec(vstd::slice::slice_subrange(p, 7, q));
    if !check_subject_bytes(id.as_slice()) {
        return None;
    }
    let rk = role_key_bytes();
    proof {
        assert(r1.skip(q - 7) =~= p@.skip(q as int));
    }
    if !has_prefix_at(p, q, rk.as_slice()) {
        return None;
    }
    let ghost r2 = r1.skip(q - 7);
    let ghost r3 = r2.skip(10);
    proof {
        assert(r2 == p@.skip(q as int));
        assert(starts_with(r2, json_role_key()));
        assert(r2.len() >= 10);
        assert(q + 10 <= p@.len());
        assert(r3 =~= p@.skip(q as int + 10));
    }
    let un = role_name_bytes(UserRole::User);
    let an = role_name_bytes(UserRole::Admin);
    let (role, after_role) = if has_prefix_at(p, q + 10, un.as_slice()) {
        proof {
            assert(starts_with(r3, role_name(UserRole::User)));
            assert(r3.len() >= 4);
            assert(q + 14 <= p@.len());
            assert(r3.skip(4) =~= p@.skip(q as int + 14));
        }
        (UserRole::User, q + 14)
    } else if has_prefix_at(p, q + 10, an.as_slice()) {
        proof {
            assert(starts_with(r3, role_name(UserRole::Admin)));
            assert(r3.len() >= 5);
            assert(q + 15 <= p@.len());
            assert(r3.skip(5) =~= p@.skip(q as int + 15));
        }
        (UserRole::Admin, q + 15)
    } else {
        return None;
    };
    let exp = match parse_exp_from(p, after_role) {
        Some(v) => v,
        None => {
            return None;
        },
    };
    proof {
        assert(spec_parse_claims(p@) == Some((id@, role, exp)));
    }
    Some((id, role, exp))
}

/// Parse the expiry tail of a payload, read from position `pos`.
fn parse_exp_from(p: &[u8], pos: usize) -> (r: Option<u64>)
    requires
        pos <= p@.len(),
    ensures
        match r {
            Some(v) => spec_parse_exp(p@.skip(pos as int)) == Some(v),
            None => spec_parse_exp(p@.skip(pos as int)) is None,
        },
{
    let n = p.len();
    let ghost r4 = p@.skip(pos as int);
    let ek = exp_key_bytes();
    if !has_prefix_at(p, pos, ek.as_slice()) {
        return None;
    }
    let ghost r5 = r4.skip(8);
    proof {
        assert(starts_with(r4, json_exp_key()));
        assert(r4.len() >= 8);
        assert(pos + 8 <= p@.len());
        assert(r5 =~= p@.skip(pos as int + 8));
    }
    let digits_start = pos + 8;
    if p.len() - digits_start < 2 {
        return None;
    }
    if p[p.len() - 1] != 125 {
        proof {
            assert(r5.last() == p@.last());
        }
        return None;
    }
    let digits = vstd::slice::slice_subrange(p, digits_start, p.len() - 1);
    proof {
        assert(digits@ =~= r5.drop_last());
        assert(r5.last() == 125u8);
        assert(r5.len() >= 2);
    }
    match parse_dec_u64(digits) {
        Some(v) => Some(v),
        None => None,
    }
}

} // verus!
