use bookstore::claims::UserRole;
use bookstore::gate::{authorize_outcome, AuthDecision, AuthStep, JwtAuth};
use bookstore::responses::FullUserResp;
use bookstore::services::{StoreError, UserFetchResult};
use bookstore::token::JwtClaims;

const SECRET: &[u8] = b"test-signing-secret";
const NOW: u64 = 1_700_000_000;

fn gate(roles: Vec<UserRole>) -> JwtAuth {
    JwtAuth::new(roles, SECRET.to_vec())
}

fn account(id: &str, suspended: bool) -> FullUserResp {
    FullUserResp {
        id: id.to_string(),
        first_name: "Ada".to_string(),
        last_name: "Lovelace".to_string(),
        middle_name: None,
        nickname: "ada".to_string(),
        date_registered: 0,
        role: UserRole::User,
        suspended,
    }
}

/// Drives both gate phases the way the serving layer does, counting how
/// often the account lookup collaborator is consulted.
fn run_gate(
    gate: &JwtAuth,
    header: Option<&[u8]>,
    lookup: impl Fn() -> UserFetchResult,
    lookup_calls: &mut usize,
) -> AuthDecision {
    match gate.authorize_request(header, NOW) {
        AuthStep::Done(d) => d,
        AuthStep::Lookup(claims) => {
            *lookup_calls += 1;
            authorize_outcome(claims, lookup())
        }
    }
}

#[test]
fn missing_header_is_unauthenticated_without_lookup() {
    let g = gate(vec![UserRole::User, UserRole::Admin]);
    let mut calls = 0usize;
    let d = run_gate(&g, None, || UserFetchResult::NotFound, &mut calls);
    assert!(matches!(d, AuthDecision::Unauthenticated));
    assert_eq!(calls, 0, "the lookup ran before the header check passed");
}

#[test]
fn wrong_scheme_is_unauthenticated_without_lookup() {
    let g = gate(vec![UserRole::User, UserRole::Admin]);
    let mut calls = 0usize;
    for header in [&b"Basic dXNlcjpwdw=="[..], b"bearer x.y.z", b"Token abc", b""] {
        let d = run_gate(&g, Some(header), || UserFetchResult::NotFound, &mut calls);
        assert!(matches!(d, AuthDecision::Unauthenticated));
    }
    assert_eq!(calls, 0);
}

#[test]
fn garbage_token_is_unauthenticated_without_lookup() {
    let g = gate(vec![UserRole::User, UserRole::Admin]);
    let mut calls = 0usize;
    let d = run_gate(
        &g,
        Some(b"Bearer not.a.token"),
        || UserFetchResult::NotFound,
        &mut calls,
    );
    assert!(matches!(d, AuthDecision::Unauthenticated));
    assert_eq!(calls, 0, "the lookup ran before the signature check passed");
}

#[test]
fn expired_token_is_unauthenticated_without_lookup() {
    let g = gate(vec![UserRole::User, UserRole::Admin]);
    let token = JwtClaims { id: "u1".to_string(), role: UserRole::User, exp: NOW - 1 }
        .to_token(SECRET);
    let header = format!("Bearer {}", token);
    let mut calls = 0usize;
    let d = run_gate(
        &g,
        Some(header.as_bytes()),
        || UserFetchResult::NotFound,
        &mut calls,
    );
    assert!(matches!(d, AuthDecision::Unauthenticated));
    assert_eq!(calls, 0);
}

#[test]
fn insufficient_role_is_forbidden_without_lookup() {
    // a verified User credential against an Admin-only group
    let g = gate(vec![UserRole::Admin]);
    let token = JwtClaims::new("u1".to_string(), UserRole::User, NOW).to_token(SECRET);
    let header = format!("Bearer {}", token);
    let mut calls = 0usize;
    let d = run_gate(
        &g,
        Some(header.as_bytes()),
        || UserFetchResult::Found(account("u1", false)),
        &mut calls,
    );
    assert!(matches!(d, AuthDecision::Forbidden));
    assert_eq!(calls, 0, "the role check must precede the lookup");
}

#[test]
fn suspended_account_is_refused() {
    let g = gate(vec![UserRole::User, UserRole::Admin]);
    let token = JwtClaims::new("u1".to_string(), UserRole::User, NOW).to_token(SECRET);
    let header = format!("Bearer {}", token);
    let mut calls = 0usize;
    let d = run_gate(
        &g,
        Some(header.as_bytes()),
        || UserFetchResult::Found(account("u1", true)),
        &mut calls,
    );
    assert!(matches!(d, AuthDecision::Suspended));
    assert_eq!(calls, 1);
}

#[test]
fn missing_account_is_account_missing() {
    let g = gate(vec![UserRole::User, UserRole::Admin]);
    let token = JwtClaims::new("u1".to_string(), UserRole::User, NOW).to_token(SECRET);
    let header = format!("Bearer {}", token);
    let mut calls = 0usize;
    let d = run_gate(
        &g,
        Some(header.as_bytes()),
        || UserFetchResult::NotFound,
        &mut calls,
    );
    assert!(matches!(d, AuthDecision::AccountMissing));
    assert_eq!(calls, 1);
}

#[test]
fn store_failure_is_internal_error() {
    let g = gate(vec![UserRole::User, UserRole::Admin]);
    let token = JwtClaims::new("u1".to_string(), UserRole::User, NOW).to_token(SECRET);
    let header = format!("Bearer {}", token);
    let mut calls = 0usize;
    let d = run_gate(
        &g,
        Some(header.as_bytes()),
        || UserFetchResult::UnexpectedError(StoreError { message: "down".to_string() }),
        &mut calls,
    );
    assert!(matches!(d, AuthDecision::InternalError));
    assert_eq!(calls, 1);
}

#[test]
fn end_to_end_authorized() {
    // issue for subject u1 / role User; permitted {User, Admin}; account alive
    let g = gate(vec![UserRole::User, UserRole::Admin]);
    let token = JwtClaims::new("u1".to_string(), UserRole::User, NOW).to_token(SECRET);
    let header = format!("Bearer {}", token);
    let mut calls = 0usize;
    let d = run_gate(
        &g,
        Some(header.as_bytes()),
        || UserFetchResult::Found(account("u1", false)),
        &mut calls,
    );
    match d {
        AuthDecision::Authorized(claims) => {
            assert_eq!(claims.id, "u1");
            assert!(matches!(claims.role, UserRole::User));
        }
        other => panic!("expected Authorized, got {:?}", decision_name(&other)),
    }
    assert_eq!(calls, 1, "exactly one lookup per authorized request");
}

#[test]
fn end_to_end_forbidden_same_token() {
    // the same token against a group permitting only Admin: forbidden, and
    // the lookup is never consulted
    let g = gate(vec![UserRole::Admin]);
    let token = JwtClaims::new("u1".to_string(), UserRole::User, NOW).to_token(SECRET);
    let header = format!("Bearer {}", token);
    let mut calls = 0usize;
    let d = run_gate(
        &g,
        Some(header.as_bytes()),
        || UserFetchResult::Found(account("u1", false)),
        &mut calls,
    );
    assert!(matches!(d, AuthDecision::Forbidden));
    assert_eq!(calls, 0);
}

fn decision_name(d: &AuthDecision) -> &'static str {
    match d {
        AuthDecision::Authorized(_) => "Authorized",
        AuthDecision::Unauthenticated => "Unauthenticated",
        AuthDecision::Forbidden => "Forbidden",
        AuthDecision::AccountMissing => "AccountMissing",
        AuthDecision::Suspended => "Suspended",
        AuthDecision::InternalError => "InternalError",
    }
}
