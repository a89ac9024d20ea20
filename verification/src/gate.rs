//! The authorization gate guarding a route group.
//!
//! One evaluation runs in two phases around the single account lookup.
//! `authorize_request` performs the synchronous steps in strict order —
//! extract the bearer token from the authorization header, verify it, check
//! the role against the group's permitted set — and either finishes with a
//! decision or asks for the lookup. `authorize_outcome` turns the lookup's
//! result into the final decision. A request whose first phase finishes early
//! therefore never reaches the account store at all.

use vstd::prelude::*;
use crate::claims::UserRole;
use crate::scan::{has_prefix_at, starts_with};
use crate::services::UserFetchResult;
use crate::text::{ascii_bytes_of, chars_of_bytes};
use crate::token::{spec_verify, verify_token_bytes, JwtClaims};

verus! {

/// A gate's final word on a request. Each variant corresponds to one
/// outward status code.
pub enum AuthDecision {
    /// Proceed, with the verified claims attached to the request context.
    Authorized(JwtClaims),
    /// No usable credential: header missing or malformed, signature bad, or
    /// token expired — deliberately collapsed into one outward result.
    Unauthenticated,
    /// The credential's role is not permitted for this route group.
    Forbidden,
    /// The credential's subject no longer resolves to an account.
    AccountMissing,
    /// The account exists but has been suspended.
    Suspended,
    /// The account store failed; nothing is revealed beyond a generic error.
    InternalError,
}

/// Where an evaluation stands after the synchronous phase: finished, or in
/// need of the one account lookup for the verified claims.
pub enum AuthStep {
    Done(AuthDecision),
    Lookup(JwtClaims),
}

/// One route group's gate: the permitted roles, fixed at startup, and the
/// process-wide signing secret.
pub struct JwtAuth {
    pub roles: Vec<UserRole>,
    pub secret: Vec<u8>,
}

/// `Bearer ` — the one accepted authorization scheme prefix.
pub open spec fn bearer_prefix() -> Seq<u8> {
    seq![66u8, 101u8, 97u8, 114u8, 101u8, 114u8, 32u8]
}

/// Is the role in the permitted set?
pub fn contains_role(roles: &Vec<UserRole>, role: UserRole) -> (r: bool)
    ensures
        r == roles@.contains(role),
{
    let n = roles.len();
    let mut k: usize = 0;
    while k < n
        invariant
            k <= n,
            n == roles@.len(),
            forall|j: int| 0 <= j < k ==> roles@[j] != role,
        decreases n - k,
    {
        if roles[k] == role {
            return true;
        }
        k += 1;
    }
    false
}

impl JwtAuth {
    /// A gate for one route group, from its permitted roles and the secret.
    pub fn new(roles_permitted: Vec<UserRole>, secret: Vec<u8>) -> (a: Self)
        ensures
            a.roles == roles_permitted,
            a.secret == secret,
    {
        JwtAuth { roles: roles_permitted, secret }
    }

    /// The synchronous phase, in strict order: no authorization header, a
    /// non-bearer scheme, or a token that does not verify is
    /// `Unauthenticated`; a verified credential whose role is not permitted
    /// is `Forbidden`; only a verified, permitted credential asks for the
    /// account lookup. The expiry check sits inside verification, before the
    /// role check.
    pub fn authorize_request(&self, header: Option<&[u8]>, now: u64) -> (s: AuthStep)
        ensures
            header is None ==> s == AuthStep::Done(AuthDecision::Unauthenticated),
            header matches Some(h) ==> {
                &&& !starts_with(h@, bearer_prefix()) ==> s == AuthStep::Done(
                    AuthDecision::Unauthenticated,
                )
                &&& starts_with(h@, bearer_prefix()) ==> {
                    let v = spec_verify(h@.skip(7), self.secret@, now);
                    &&& v is Err ==> s == AuthStep::Done(AuthDecision::Unauthenticated)
                    &&& v matches Ok(cv) ==> {
                        &&& !self.roles@.contains(cv.1) ==> s == AuthStep::Done(
                            AuthDecision::Forbidden,
                        )
                        &&& self.roles@.contains(cv.1) ==> (s matches AuthStep::Lookup(c)
                            && c.id@ == chars_of_bytes(cv.0)
                            && ascii_bytes_of(c.id@) == cv.0
                            && c.role == cv.1
                            && c.exp == cv.2)
                    }
                }
            },
    {
        let h = match header {
            Some(h) => h,
            None => {
                return AuthStep::Done(AuthDecision::Unauthenticated);
            },
        };
        let mut bearer: Vec<u8> = Vec::new();
        bearer.push(66);
        bearer.push(101);
        bearer.push(97);
        bearer.push(114);
        bearer.push(101);
        bearer.push(114);
        bearer.push(32);
        proof {
            assert(bearer@ =~= bearer_prefix());
            assert(h@.skip(0) =~= h@);
        }
        if !has_prefix_at(h, 0, bearer.as_slice()) {
            return AuthStep::Done(AuthDecision::Unauthenticated);
        }
        let token = vstd::slice::slice_subrange(h, 7, h.len());
        proof {
            assert(token@ =~= h@.skip(7));
        }
        let claims = match verify_token_bytes(token, self.secret.as_slice(), now) {
            Ok(c) => c,
            Err(_) => {
                return AuthStep::Done(AuthDecision::Unauthenticated);
            },
        };
        if !contains_role(&self.roles, claims.role) {
            return AuthStep::Done(AuthDecision::Forbidden);
        }
        AuthStep::Lookup(claims)
    }
}

/// The asynchronous phase: the final decision from the account lookup's
/// outcome. A suspended account is refused even though the credential
/// verified; a missing account and a store failure each map to their own
/// decision; otherwise the claims pass through unchanged.
pub fn authorize_outcome(claims: JwtClaims, outcome: UserFetchResult) -> (d: AuthDecision)
    ensures
        (outcome matches UserFetchResult::Found(u) && u.suspended) ==> d
            == AuthDecision::Suspended,
        (outcome matches UserFetchResult::Found(u) && !u.suspended) ==> d
            == AuthDecision::Authorized(claims),
        outcome is NotFound ==> d == AuthDecision::AccountMissing,
        outcome matches UserFetchResult::UnexpectedError(_) ==> d == AuthDecision::InternalError,
{
    match outcome {
        UserFetchResult::Found(user) => {
            if user.suspended {
                AuthDecision::Suspended
            } else {
                AuthDecision::Authorized(claims)
            }
        },
        UserFetchResult::NotFound => AuthDecision::AccountMissing,
        UserFetchResult::UnexpectedError(_) => AuthDecision::InternalError,
    }
}

} // verus!
