use bookstore::auth::{
    check_name, check_nickname, check_password, hash_password, login_outcome,
    register_check_existing, register_issue_token, register_new_user, register_validate,
    LoginError, RegistrationError,
};
use bookstore::claims::UserRole;
use bookstore::entities::User;
use bookstore::requests::RegisterReq;
use bookstore::services::StoreError;
use bookstore::token::{JwtClaims, JWT_EXPIRATION_TIME};

const SECRET: &[u8] = b"test-signing-secret";
const NOW: u64 = 1_700_000_000;

fn req(nickname: &str, password: &str, first: &str, last: &str) -> RegisterReq {
    RegisterReq {
        first_name: first.to_string(),
        last_name: last.to_string(),
        middle_name: None,
        nickname: nickname.to_string(),
        password: password.to_string(),
    }
}

fn stored_user(id: &str, hashed_password: String) -> User {
    User {
        id: id.to_string(),
        first_name: "Ada".to_string(),
        last_name: "Lovelace".to_string(),
        middle_name: None,
        nickname: "ada".to_string(),
        hashed_password,
        date_registered: 0,
        role: UserRole::User,
        suspended: false,
    }
}

#[test]
fn nickname_rules() {
    assert!(check_nickname("Aboba_x69"));
    assert!(check_nickname("a.b-c_d"));
    assert!(!check_nickname(""));
    assert!(!check_nickname("a b"));
    assert!(!check_nickname("тест"));
    assert!(!check_nickname("user!"));
}

#[test]
fn password_rules() {
    assert!(check_password("password"));
    assert!(check_password("p"));
    assert!(check_password("päss wörd!"));
    assert!(!check_password(""));
    assert!(!check_password("a\nb"));
}

#[test]
fn name_rules() {
    assert!(check_name("Vasya"));
    assert!(check_name("\u{412}\u{430}\u{441}\u{44f}"));  // Cyrillic letters
    assert!(!check_name(""));
    assert!(!check_name("Vasya1"));
    assert!(!check_name("Va sya"));
    assert!(!check_name("O'Brien"));
}

#[test]
fn register_validate_refuses_bad_fields() {
    assert!(register_validate(&req("ok.nick", "pw", "Ann", "Lee")).is_ok());
    for bad in [
        req("bad nick", "pw", "Ann", "Lee"),
        req("ok.nick", "", "Ann", "Lee"),
        req("ok.nick", "pw", "Ann1", "Lee"),
        req("ok.nick", "pw", "Ann", ""),
    ] {
        assert_eq!(register_validate(&bad), Err(RegistrationError::BadRequest));
    }
}

#[test]
fn register_check_existing_cases() {
    let taken = stored_user("u1", "h".to_string());
    assert_eq!(
        register_check_existing(Ok(Some(taken))),
        Err(RegistrationError::AlreadyExists)
    );
    assert!(register_check_existing(Ok(None)).is_ok());
    assert_eq!(
        register_check_existing(Err(StoreError { message: "down".to_string() })),
        Err(RegistrationError::UnexpectedError)
    );
}

#[test]
fn register_new_user_fields() {
    let hash = "x".repeat(60);
    let u = register_new_user(
        req("ada", "pw", "Ada", "Lovelace"),
        hash.clone(),
        "id-1".to_string(),
        42,
    );
    assert_eq!(u.id, "id-1");
    assert_eq!(u.nickname, "ada");
    assert_eq!(u.hashed_password, hash);
    assert_eq!(u.date_registered, 42);
    assert!(matches!(u.role, UserRole::User));
    assert!(!u.suspended);
}

#[test]
fn register_issue_token_after_insert() {
    let u = stored_user("u1", "h".to_string());
    let token = register_issue_token(&u, Ok(()), SECRET, NOW).expect("insert succeeded");
    let claims = JwtClaims::from_token(&token, SECRET, NOW).unwrap();
    assert_eq!(claims.id, "u1");
    assert!(matches!(claims.role, UserRole::User));
    assert_eq!(claims.exp, NOW + JWT_EXPIRATION_TIME);
}

#[test]
fn register_issue_token_after_failed_insert() {
    let u = stored_user("u1", "h".to_string());
    let r = register_issue_token(
        &u,
        Err(StoreError { message: "down".to_string() }),
        SECRET,
        NOW,
    );
    assert_eq!(r, Err(RegistrationError::UnexpectedError));
}

#[test]
fn login_round_trip_with_real_hash() {
    let hash = hash_password("hunter2").expect("hashing must succeed");
    assert_eq!(hash.len(), 60);
    let u = stored_user("u1", hash);
    let token = login_outcome(Ok(Some(u)), "hunter2", SECRET, NOW)
        .expect("no store failure")
        .expect("right password must log in");
    let claims = JwtClaims::from_token(&token, SECRET, NOW).unwrap();
    assert_eq!(claims.id, "u1");
}

#[test]
fn login_wrong_password_is_empty_success() {
    let hash = hash_password("hunter2").unwrap();
    let u = stored_user("u1", hash);
    let r = login_outcome(Ok(Some(u)), "wrong", SECRET, NOW);
    assert_eq!(r, Ok(None));
}

#[test]
fn login_unknown_nickname_is_empty_success() {
    let r = login_outcome(Ok(None), "pw", SECRET, NOW);
    assert_eq!(r, Ok(None));
}

#[test]
fn login_store_failure_is_error() {
    let r = login_outcome(
        Err(StoreError { message: "down".to_string() }),
        "pw",
        SECRET,
        NOW,
    );
    assert_eq!(r, Err(LoginError::UnexpectedError));
}

#[test]
fn login_malformed_stored_hash_is_error() {
    let u = stored_user("u1", "not-a-bcrypt-hash".to_string());
    let r = login_outcome(Ok(Some(u)), "pw", SECRET, NOW);
    assert_eq!(r, Err(LoginError::UnexpectedError));
}

#[test]
fn error_messages() {
    assert_eq!(
        RegistrationError::AlreadyExists.message(),
        "User with this nickname already exists"
    );
    assert_eq!(RegistrationError::UnexpectedError.message(), "Internal error");
    assert_eq!(RegistrationError::BadRequest.message(), "Bad request format");
    assert_eq!(LoginError::UserNotFound.message(), "User not found");
    assert_eq!(LoginError::UnexpectedError.message(), "Internal error");
}
