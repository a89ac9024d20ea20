//! Response payloads returned by the service layer, assembled from stored
//! entities. Each constructor copies exactly the fields the original row
//! carries; the account response drops the password hash.

use vstd::prelude::*;
use crate::claims::UserRole;
use crate::entities::{Author, Book, User};

verus! {

/// Everything a caller may see about one account.
pub struct FullUserResp {
    pub id: String,
    pub first_name: String,
    pub last_name: String,
    pub middle_name: Option<String>,
    pub nickname: String,
    pub date_registered: i64,
    pub role: UserRole,
    pub suspended: bool,
}

/// The response reproduces the account row, hash excluded.
pub open spec fn resp_matches_user(r: FullUserResp, u: User) -> bool {
    &&& r.id == u.id
    &&& r.first_name == u.first_name
    &&& r.last_name == u.last_name
    &&& r.middle_name == u.middle_name
    &&& r.nickname == u.nickname
    &&& r.date_registered == u.date_registered
    &&& r.role == u.role
    &&& r.suspended == u.suspended
}

impl FullUserResp {
    pub fn new(value: User) -> (r: Self)
        ensures
            resp_matches_user(r, value),
    {
        FullUserResp {
            id: value.id,
            first_name: value.first_name,
            last_name: value.last_name,
            middle_name: value.middle_name,
            nickname: value.nickname,
            date_registered: value.date_registered,
            role: value.role,
            suspended: value.suspended,
        }
    }
}

/// A page of accounts.
pub struct UserListResp(pub Vec<FullUserResp>);

impl UserListResp {
    pub fn new(value: Vec<User>) -> (r: Self)
        ensures
            r.0@.len() == value@.len(),
            forall|i: int| 0 <= i < value@.len() ==> resp_matches_user(#[trigger] r.0@[i], value@[i]),
    {
        let ghost orig = value@;
        let mut rows = value;
        let mut out: Vec<FullUserResp> = Vec::new();
        proof {
            assert(rows@ =~= orig.skip(0));
        }
        while rows.len() > 0
            invariant
                out@.len() + rows@.len() == orig.len(),
                rows@ == orig.skip(out@.len() as int),
                forall|i: int| 0 <= i < out@.len() ==> resp_matches_user(#[trigger] out@[i], orig[i]),
            decreases rows@.len(),
        {
            let ghost k = out@.len() as int;
            let row = rows.remove(0);
            proof {
                assert(row == orig[k]);
                assert(rows@ =~= orig.skip(k + 1));
            }
            out.push(FullUserResp::new(row));
        }
        UserListResp(out)
    }
}

/// The token handed back after login or registration.
pub struct TokenResp {
    pub token: String,
}

/// A book without its author details.
pub struct MinBookResp {
    pub id: String,
    pub title: String,
    pub author_id: Option<String>,
}

pub open spec fn min_resp_matches_book(r: MinBookResp, b: Book) -> bool {
    &&& r.id == b.id
    &&& r.title == b.title
    &&& r.author_id == b.author_id
}

impl MinBookResp {
    pub fn new(db_book: Book) -> (r: Self)
        ensures
            min_resp_matches_book(r, db_book),
    {
        MinBookResp { id: db_book.id, title: db_book.title, author_id: db_book.author_id }
    }
}

/// An author without their books.
pub struct MinAuthorResp {
    pub id: String,
    pub first_name: String,
    pub last_name: String,
    pub middle_name: Option<String>,
}

pub open spec fn min_resp_matches_author(r: MinAuthorResp, a: Author) -> bool {
    &&& r.id == a.id
    &&& r.first_name == a.first_name
    &&& r.last_name == a.last_name
    &&& r.middle_name == a.middle_name
}

impl MinAuthorResp {
    pub fn new(db_author: Author) -> (r: Self)
        ensures
            min_resp_matches_author(r, db_author),
    {
        MinAuthorResp {
            id: db_author.id,
            first_name: db_author.first_name,
            last_name: db_author.last_name,
            middle_name: db_author.middle_name,
        }
    }
}

/// An author together with the books they wrote.
pub struct FullAuthorResp {
    pub id: String,
    pub first_name: String,
    pub last_name: String,
    pub middle_name: Option<String>,
    pub books: Vec<MinBookResp>,
}

pub open spec fn resp_matches_author(r: FullAuthorResp, a: Author, books: Seq<Book>) -> bool {
    &&& r.id == a.id
    &&& r.first_name == a.first_name
    &&& r.last_name == a.last_name
    &&& r.middle_name == a.middle_name
    &&& r.books@.len() == books.len()
    &&& forall|i: int| 0 <= i < books.len() ==> min_resp_matches_book(#[trigger] r.books@[i], books[i])
}

impl FullAuthorResp {
    pub fn new(db_author: Author, db_books: Vec<Book>) -> (r: Self)
        ensures
            resp_matches_author(r, db_author, db_books@),
    {
        let ghost orig = db_books@;
        let mut rows = db_books;
        let mut out: Vec<MinBookResp> = Vec::new();
        proof {
            assert(rows@ =~= orig.skip(0));
        }
        while rows.len() > 0
            invariant
                out@.len() + rows@.len() == orig.len(),
                rows@ == orig.skip(out@.len() as int),
                forall|i: int|
                    0 <= i < out@.len() ==> min_resp_matches_book(#[trigger] out@[i], orig[i]),
            decreases rows@.len(),
        {
            let ghost k = out@.len() as int;
            let row = rows.remove(0);
            proof {
                assert(row == orig[k]);
                assert(rows@ =~= orig.skip(k + 1));
            }
            out.push(MinBookResp::new(row));
        }
        FullAuthorResp {
            id: db_author.id,
            first_name: db_author.first_name,
            last_name: db_author.last_name,
            middle_name: db_author.middle_name,
            books: out,
        }
    }
}

/// A page of authors, each with their books.
pub struct AuthorListResp(pub Vec<FullAuthorResp>);

impl AuthorListResp {
    pub fn new(db_authors: Vec<Author>, db_books: Vec<Vec<Book>>) -> (r: Self)
        requires
            db_authors@.len() == db_books@.len(),
        ensures
            r.0@.len() == db_authors@.len(),
            forall|i: int|
                0 <= i < db_authors@.len() ==> resp_matches_author(
                    #[trigger] r.0@[i],
                    db_authors@[i],
                    db_books@[i]@,
                ),
    {
        let ghost oa = db_authors@;
        let ghost ob = db_books@;
        let mut authors = db_authors;
        let mut books = db_books;
        let mut out: Vec<FullAuthorResp> = Vec::new();
        proof {
            assert(authors@ =~= oa.skip(0));
            assert(books@ =~= ob.skip(0));
        }
        while authors.len() > 0
            invariant
                out@.len() + authors@.len() == oa.len(),
                authors@.len() == books@.len(),
                oa.len() == ob.len(),
                authors@ == oa.skip(out@.len() as int),
                books@ == ob.skip(out@.len() as int),
                forall|i: int|
                    0 <= i < out@.len() ==> resp_matches_author(#[trigger] out@[i], oa[i], ob[i]@),
            decreases authors@.len(),
        {
            let ghost k = out@.len() as int;
            let a = authors.remove(0);
            let b = books.remove(0);
            proof {
                assert(a == oa[k]);
                assert(b == ob[k]);
                assert(authors@ =~= oa.skip(k + 1));
                assert(books@ =~= ob.skip(k + 1));
            }
            out.push(FullAuthorResp::new(a, b));
        }
        AuthorListResp(out)
    }
}

/// A book together with its author, when it has one that still exists.
pub struct FullBookResp {
    pub id: String,
    pub title: String,
    pub author_id: Option<String>,
    pub author: Option<MinAuthorResp>,
}

pub open spec fn resp_matches_book(r: FullBookResp, b: Book, a: Option<Author>) -> bool {
    &&& r.id == b.id
    &&& r.title == b.title
    &&& r.author_id == b.author_id
    &&& match a {
        Some(author) => r.author matches Some(ra) && min_resp_matches_author(ra, author),
        None => r.author is None,
    }
}

impl FullBookResp {
    pub fn new(db_book: Book, db_author: Option<Author>) -> (r: Self)
        ensures
            resp_matches_book(r, db_book, db_author),
    {
        let author = match db_author {
            Some(a) => Some(MinAuthorResp::new(a)),
            None => None,
        };
        FullBookResp {
            id: db_book.id,
            title: db_book.title,
            author_id: db_book.author_id,
            author,
        }
    }
}

/// A page of books, each with its author when known.
pub struct BookListResp(pub Vec<FullBookResp>);

impl BookListResp {
    pub fn new(db_books: Vec<Book>, db_authors: Vec<Option<Author>>) -> (r: Self)
        requires
            db_books@.len() == db_authors@.len(),
        ensures
            r.0@.len() == db_books@.len(),
            forall|i: int|
                0 <= i < db_books@.len() ==> resp_matches_book(
                    #[trigger] r.0@[i],
                    db_books@[i],
                    db_authors@[i],
                ),
    {
        let ghost obk = db_books@;
        let ghost oau = db_authors@;
        let mut books = db_books;
        let mut authors = db_authors;
        let mut out: Vec<FullBookResp> = Vec::new();
        proof {
            assert(books@ =~= obk.skip(0));
            assert(authors@ =~= oau.skip(0));
        }
        while books.len() > 0
            invariant
                out@.len() + books@.len() == obk.len(),
                books@.len() == authors@.len(),
                obk.len() == oau.len(),
                books@ == obk.skip(out@.len() as int),
                authors@ == oau.skip(out@.len() as int),
                forall|i: int|
                    0 <= i < out@.len() ==> resp_matches_book(#[trigger] out@[i], obk[i], oau[i]),
            decreases books@.len(),
        {
            let ghost k = out@.len() as int;
            let b = books.remove(0);
            let a = authors.remove(0);
            proof {
                assert(b == obk[k]);
                assert(a == oau[k]);
                assert(books@ =~= obk.skip(k + 1));
                assert(authors@ =~= oau.skip(k + 1));
            }
            out.push(FullBookResp::new(b, a));
        }
        BookListResp(out)
    }
}

} // verus!
