//! The stored entities. Identifiers are the string form of the store's
//! unique ids, and registration times are seconds since the epoch; the
//! persistence layer converts to and from its own column types at the edge.

use vstd::prelude::*;
use crate::claims::UserRole;
use crate::requests::{AddAuthorReq, AddBookReq, RegisterReq};

verus! {

/// An account row.
pub struct User {
    pub id: String,
    pub first_name: String,
    pub last_name: String,
    pub middle_name: Option<String>,
    pub nickname: String,
    pub hashed_password: String,
    pub date_registered: i64,
    pub role: UserRole,
    pub suspended: bool,
}

impl User {
    /// A fresh account from a registration request: given a new unique id
    /// and the current time, the account starts as a regular user, not
    /// suspended, with the password hash still to be filled in.
    pub fn new(value: RegisterReq, id: String, now: i64) -> (u: Self)
        ensures
            u.id@ == id@,
            u.first_name@ == value.first_name@,
            u.last_name@ == value.last_name@,
            u.middle_name == value.middle_name,
            u.nickname@ == value.nickname@,
            u.hashed_password@.len() == 0,
            u.date_registered == now,
            u.role == UserRole::User,
            u.suspended == false,
    {
        User {
            id,
            first_name: value.first_name,
            last_name: value.last_name,
            middle_name: value.middle_name,
            nickname: value.nickname,
            hashed_password: String::new(),
            date_registered: now,
            role: UserRole::User,
            suspended: false,
        }
    }
}

/// An author row.
pub struct Author {
    pub id: String,
    pub first_name: String,
    pub last_name: String,
    pub middle_name: Option<String>,
}

impl Author {
    /// A fresh author from an add request and a new unique id.
    pub fn new(value: AddAuthorReq, id: String) -> (a: Self)
        ensures
            a.id@ == id@,
            a.first_name@ == value.first_name@,
            a.last_name@ == value.last_name@,
            a.middle_name == value.middle_name,
    {
        Author {
            id,
            first_name: value.first_name,
            last_name: value.last_name,
            middle_name: value.middle_name,
        }
    }
}

/// A book row.
pub struct Book {
    pub id: String,
    pub title: String,
    pub author_id: Option<String>,
}

impl Book {
    /// A fresh book from an add request and a new unique id.
    pub fn new(value: AddBookReq, id: String) -> (b: Self)
        ensures
            b.id@ == id@,
            b.title@ == value.title@,
            b.author_id == value.author_id,
    {
        Book { id, title: value.title, author_id: value.author_id }
    }
}

} // verus!
