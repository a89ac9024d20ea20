//! Request payloads accepted by the service layer. The serving layer
//! deserializes inbound bodies and query strings into these plain values.

use vstd::prelude::*;

verus! {

/// Registration request.
pub struct RegisterReq {
    /// Given name.
    pub first_name: String,
    /// Family name.
    pub last_name: String,
    /// Patronymic, if any.
    pub middle_name: Option<String>,
    /// Unique account name: letters, digits, `.`, `-` and `_`.
    pub nickname: String,
    /// Plain-text password, hashed before storage.
    pub password: String,
}

/// Login request.
pub struct LoginReq {
    pub nickname: String,
    pub password: String,
}

/// Page of users to list.
pub struct GetUserListReq {
    pub page: u32,
    pub size: u32,
}

/// New suspension state for an account.
pub struct UpdateSuspendedReq {
    pub suspended: bool,
}

/// Page of authors to list.
pub struct GetAuthorListReq {
    pub page: u32,
    pub size: u32,
}

/// New author to add.
pub struct AddAuthorReq {
    pub first_name: String,
    pub last_name: String,
    pub middle_name: Option<String>,
}

/// Page of books to list.
pub struct GetBookListReq {
    pub page: u32,
    pub size: u32,
}

/// New book to add; the author reference is optional.
pub struct AddBookReq {
    pub title: String,
    pub author_id: Option<String>,
}

} // verus!
