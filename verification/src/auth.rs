//! Registration and login: field validation, password hashing and checking,
//! and the decision pipeline around the account store. The store calls are
//! asynchronous I/O and stay with the serving layer, which feeds their raw
//! results into these step functions.

use vstd::prelude::*;
use vstd::string::StrSliceExecFns;
use crate::entities::User;
use crate::requests::RegisterReq;
use crate::services::StoreError;
use crate::text::{ascii_bytes_of, check_subject, subject_wf};
use crate::token::{spec_token_bytes, JwtClaims, JWT_EXPIRATION_TIME};

verus! {

/// Why a registration was refused.
#[derive(Clone, Copy, Debug, PartialEq, Eq, Structural)]
pub enum RegistrationError {
    /// An account with this nickname already exists.
    AlreadyExists,
    /// The store or the hasher failed.
    UnexpectedError,
    /// A field does not meet the validation rules.
    BadRequest,
}

impl RegistrationError {
    /// The static text shown to the client for this error.
    pub fn message(&self) -> (s: String)
        ensures
            self is AlreadyExists ==> s@ == "User with this nickname already exists"@,
            self is UnexpectedError ==> s@ == "Internal error"@,
            self is BadRequest ==> s@ == "Bad request format"@,
    {
        match self {
            RegistrationError::AlreadyExists => "User with this nickname already exists".to_owned(),
            RegistrationError::UnexpectedError => "Internal error".to_owned(),
            RegistrationError::BadRequest => "Bad request format".to_owned(),
        }
    }
}

/// Why a login failed outright (a wrong password is not an error but an
/// empty success).
#[derive(Clone, Copy, Debug, PartialEq, Eq, Structural)]
pub enum LoginError {
    /// No account under this nickname.
    UserNotFound,
    /// The store or the password check failed.
    UnexpectedError,
}

impl LoginError {
    /// The static text shown to the client for this error.
    pub fn message(&self) -> (s: String)
        ensures
            self is UserNotFound ==> s@ == "User not found"@,
            self is UnexpectedError ==> s@ == "Internal error"@,
    {
        match self {
            LoginError::UserNotFound => "User not found".to_owned(),
            LoginError::UnexpectedError => "Internal error".to_owned(),
        }
    }
}

/// A nickname character: an English letter, a digit, `.`, `-` or `_`.
pub open spec fn nickname_char_ok(c: char) -> bool {
    ('a' <= c <= 'z') || ('A' <= c <= 'Z') || ('0' <= c <= '9') || c == '.' || c == '-' || c
        == '_'
}

/// A valid nickname: non-empty, nickname characters only.
pub open spec fn spec_valid_nickname(s: Seq<char>) -> bool {
    s.len() >= 1 && forall|i: int| 0 <= i < s.len() ==> nickname_char_ok(#[trigger] s[i])
}

/// A valid password: non-empty, no line break.
pub open spec fn spec_valid_password(s: Seq<char>) -> bool {
    s.len() >= 1 && forall|i: int| 0 <= i < s.len() ==> #[trigger] s[i] != '\n'
}

/// A name character: an English or Cyrillic letter.
pub open spec fn name_char_ok(c: char) -> bool {
    ('a' <= c <= 'z') || ('A' <= c <= 'Z') || ('\u{430}' <= c <= '\u{44f}') || ('\u{410}' <= c
        <= '\u{42f}')
}

/// A valid given or family name: non-empty, letters only.
pub open spec fn spec_valid_name(s: Seq<char>) -> bool {
    s.len() >= 1 && forall|i: int| 0 <= i < s.len() ==> name_char_ok(#[trigger] s[i])
}

/// Does the nickname meet its rule?
pub fn check_nickname(nickname: &str) -> (r: bool)
    ensures
        r == spec_valid_nickname(nickname@),
{
    let n = nickname.unicode_len();
    if n == 0 {
        return false;
    }
    let mut k: usize = 0;
    while k < n
        invariant
            k <= n,
            n == nickname@.len(),
            forall|j: int| 0 <= j < k ==> nickname_char_ok(#[trigger] nickname@[j]),
        decreases n - k,
    {
        let c = nickname.get_char(k);
        let u = c as u32;
        if !((97 <= u && u <= 122) || (65 <= u && u <= 90) || (48 <= u && u <= 57) || u == 46 || u
            == 45 || u == 95) {
            return false;
        }
        k += 1;
    }
    true
}

/// Does the password meet its rule?
pub fn check_password(password: &str) -> (r: bool)
    ensures
        r == spec_valid_password(password@),
{
    let n = password.unicode_len();
    if n == 0 {
        return false;
    }
    let mut k: usize = 0;
    while k < n
        invariant
            k <= n,
            n == password@.len(),
            forall|j: int| 0 <= j < k ==> #[trigger] password@[j] != '\n',
        decreases n - k,
    {
        let c = password.get_char(k);
        if c as u32 == 10 {
            return false;
        }
        k += 1;
    }
    true
}

/// Does a given or family name meet its rule?
pub fn check_name(name: &str) -> (r: bool)
    ensures
        r == spec_valid_name(name@),
{
    let n = name.unicode_len();
    if n == 0 {
        return false;
    }
    let mut k: usize = 0;
    while k < n
        invariant
            k <= n,
            n == name@.len(),
            forall|j: int| 0 <= j < k ==> name_char_ok(#[trigger] name@[j]),
        decreases n - k,
    {
        let c = name.get_char(k);
        let u = c as u32;
        if !((97 <= u && u <= 122) || (65 <= u && u <= 90) || (0x430 <= u && u <= 0x44f) || (0x410
            <= u && u <= 0x42f)) {
            return false;
        }
        k += 1;
    }
    true
}

/// All the validation a registration request must pass.
pub open spec fn spec_valid_registration(data: RegisterReq) -> bool {
    &&& spec_valid_nickname(data.nickname@)
    &&& spec_valid_password(data.password@)
    &&& spec_valid_name(data.first_name@)
    &&& spec_valid_name(data.last_name@)
}

/// First registration step: refuse a request whose fields break the rules.
pub fn register_validate(data: &RegisterReq) -> (r: Result<(), RegistrationError>)
    ensures
        r is Ok <==> spec_valid_registration(*data),
        r is Err ==> r == Err::<(), RegistrationError>(RegistrationError::BadRequest),
{
    if check_nickname(data.nickname.as_str()) && check_password(data.password.as_str())
        && check_name(data.first_name.as_str()) && check_name(data.last_name.as_str()) {
        Ok(())
    } else {
        Err(RegistrationError::BadRequest)
    }
}

/// Second step: refuse the registration when the nickname lookup found an
/// account, or when it failed.
pub fn register_check_existing(existing: Result<Option<User>, StoreError>) -> (r: Result<
    (),
    RegistrationError,
>)
    ensures
        existing matches Ok(u) ==> {
            &&& u is Some ==> r == Err::<(), RegistrationError>(RegistrationError::AlreadyExists)
            &&& u is None ==> r is Ok
        },
        existing is Err ==> r == Err::<(), RegistrationError>(RegistrationError::UnexpectedError),
{
    match existing {
        Ok(Some(_)) => Err(RegistrationError::AlreadyExists),
        Ok(None) => Ok(()),
        Err(_) => Err(RegistrationError::UnexpectedError),
    }
}

/// The outcome of hashing a password with bcrypt: the hash text, or the
/// error that stands in for a hasher failure.
pub fn hash_password(password: &str) -> (r: Result<String, RegistrationError>)
    ensures
        r matches Ok(h) ==> h@.len() == 60,
        r is Err ==> r == Err::<String, RegistrationError>(RegistrationError::UnexpectedError),
{
    match bcrypt_hash(password, 5) {
        Ok(h) => Ok(h),
        Err(_) => Err(RegistrationError::UnexpectedError),
    }
}

/// Third step: the account row to insert, from the validated request, the
/// password hash, a fresh unique id and the current time.
pub fn register_new_user(data: RegisterReq, hashed_password: String, id: String, now: i64) -> (u:
    User)
    ensures
        u.id@ == id@,
        u.first_name@ == data.first_name@,
        u.last_name@ == data.last_name@,
        u.middle_name == data.middle_name,
        u.nickname@ == data.nickname@,
        u.hashed_password@ == hashed_password@,
        u.date_registered == now,
        u.role == crate::claims::UserRole::User,
        u.suspended == false,
{
    let mut u = User::new(data, id, now);
    u.hashed_password = hashed_password;
    u
}

/// Last step: after the insert, a token for the new account, or the error
/// that stands in for a store failure.
pub fn register_issue_token(
    user: &User,
    inserted: Result<(), StoreError>,
    secret: &[u8],
    now: u64,
) -> (r: Result<String, RegistrationError>)
    requires
        subject_wf(user.id@),
        now + JWT_EXPIRATION_TIME <= u64::MAX,
    ensures
        inserted is Err ==> r == Err::<String, RegistrationError>(
            RegistrationError::UnexpectedError,
        ),
        inserted is Ok ==> (r matches Ok(t) && vstd::utf8::encode_utf8(t@) == spec_token_bytes(
            ascii_bytes_of(user.id@),
            user.role,
            (now + JWT_EXPIRATION_TIME) as u64,
            secret@,
        )),
{
    match inserted {
        Ok(_) => {
            let claims = JwtClaims::new(user.id.clone(), user.role, now);
            Ok(claims.to_token(secret))
        },
        Err(_) => Err(RegistrationError::UnexpectedError),
    }
}

/// Login decision, from what the nickname lookup returned: an unknown
/// nickname or a wrong password yield an empty success, a store or hasher
/// failure the generic error, and a matching password a fresh token.
pub fn login_outcome(
    fetched: Result<Option<User>, StoreError>,
    password: &str,
    secret: &[u8],
    now: u64,
) -> (r: Result<Option<String>, LoginError>)
    requires
        now + JWT_EXPIRATION_TIME <= u64::MAX,
    ensures
        fetched is Err ==> r == Err::<Option<String>, LoginError>(LoginError::UnexpectedError),
        fetched matches Ok(opt) ==> {
            &&& opt is None ==> r == Ok::<Option<String>, LoginError>(None)
            &&& opt matches Some(u) ==> {
                &&& !subject_wf(u.id@) ==> r == Err::<Option<String>, LoginError>(
                    LoginError::UnexpectedError,
                )
                &&& subject_wf(u.id@) ==> match bcrypt_verify_of(password@, u.hashed_password@) {
                    None => r == Err::<Option<String>, LoginError>(LoginError::UnexpectedError),
                    Some(false) => r == Ok::<Option<String>, LoginError>(None),
                    Some(true) => (r matches Ok(t) && t matches Some(tok)
                        && vstd::utf8::encode_utf8(tok@) == spec_token_bytes(
                        ascii_bytes_of(u.id@),
                        u.role,
                        (now + JWT_EXPIRATION_TIME) as u64,
                        secret@,
                    )),
                }
            }
        },
{
    let user = match fetched {
        Ok(Some(user)) => user,
        Ok(None) => {
            return Ok(None);
        },
        Err(_) => {
            return Err(LoginError::UnexpectedError);
        },
    };
    if !check_subject(user.id.as_str()) {
        return Err(LoginError::UnexpectedError);
    }
    match bcrypt_verify(password, user.hashed_password.as_str()) {
        Err(_) => Err(LoginError::UnexpectedError),
        Ok(false) => Ok(None),
        Ok(true) => {
            let claims = JwtClaims::new(user.id, user.role, now);
            Ok(Some(claims.to_token(secret)))
        },
    }
}

/// Whether bcrypt accepts `password` against the stored `hash` text: a pure
/// function of the two (the salt and cost are read out of the hash), `None`
/// when the hash text is malformed. Left uninterpreted; the trusted wrapper
/// below ties it to the real computation.
pub uninterp spec fn bcrypt_verify_of(password: Seq<char>, hash: Seq<char>) -> Option<bool>;

/// Relies on `bcrypt::verify`: it re-derives the hash from the password with
/// the salt and cost embedded in the hash text and compares; the outcome
/// depends on the two arguments alone, and a malformed hash is an error.
#[verifier::external_body]
fn bcrypt_verify(password: &str, hash: &str) -> (r: Result<bool, ()>)
    ensures
        match r {
            Ok(b) => bcrypt_verify_of(password@, hash@) == Some(b),
            Err(_) => bcrypt_verify_of(password@, hash@) is None,
        },
{
    match bcrypt::verify(password, hash) {
        Ok(b) => Ok(b),
        Err(_) => Err(()),
    }
}

/// Relies on `bcrypt::hash`: a fresh random salt is drawn, so nothing ties
/// the result to the inputs; on success the hash text is 60 ASCII
/// characters. A cost outside 4..=31 is refused by the crate.
#[verifier::external_body]
fn bcrypt_hash(password: &str, cost: u32) -> (r: Result<String, ()>)
    requires
        4 <= cost <= 31,
    ensures
        r matches Ok(h) ==> h@.len() == 60,
{
    match bcrypt::hash(password, cost) {
        Ok(h) => Ok(h),
        Err(_) => Err(()),
    }
}

} // verus!
