//! Service-level results and the decision functions that map what the store
//! returned onto them. The store calls themselves are asynchronous I/O and
//! live with the serving layer; it hands each raw outcome to one of these
//! functions, which are the whole of the services' logic.

use vstd::prelude::*;
use crate::entities::{Author, Book, User};
use crate::responses::{
    resp_matches_author, resp_matches_book, resp_matches_user, AuthorListResp, BookListResp,
    FullAuthorResp, FullBookResp, FullUserResp, UserListResp,
};

verus! {

/// What the store reported when an operation failed; carried opaquely and
/// surfaced to clients only as a generic internal error.
pub struct StoreError {
    pub message: String,
}

/// Outcome of fetching one account.
pub enum UserFetchResult {
    Found(FullUserResp),
    NotFound,
    UnexpectedError(StoreError),
}

/// Outcome of listing accounts.
pub enum UserListFetchResult {
    Fetched(UserListResp),
    UnexpectedError(StoreError),
}

/// Outcome of adding an account.
pub enum UserAddResult {
    Created,
    UnexpectedError(StoreError),
}

/// Outcome of changing an account's suspension flag.
pub enum UserUpdateSuspendedResult {
    Updated(FullUserResp),
    NotFound,
    UnexpectedError(StoreError),
}

/// Outcome of fetching one author with their books.
pub enum AuthorFetchResult {
    Found(FullAuthorResp),
    NotFound,
    UnexpectedError(StoreError),
}

/// Outcome of adding an author.
pub enum AuthorAddResult {
    Created,
    UnexpectedError(StoreError),
}

/// Outcome of listing authors with their books.
pub enum AuthorListFetchResult {
    Fetched(Vec<FullAuthorResp>),
    UnexpectedError(StoreError),
}

/// Outcome of deleting an author.
pub enum AuthorDeleteResult {
    Deleted,
    UnexpectedError(StoreError),
}

/// Outcome of fetching one book with its author.
pub enum BookFetchResult {
    Found(FullBookResp),
    NotFound,
    UnexpectedError(StoreError),
}

/// Outcome of adding a book.
pub enum BookAddResult {
    Created,
    AuthorNotFound,
    UnexpectedError(StoreError),
}

/// Outcome of listing books with their authors.
pub enum BookListFetchResult {
    Fetched(Vec<FullBookResp>),
    UnexpectedError(StoreError),
}

/// Outcome of deleting a book.
pub enum BookDeleteResult {
    Deleted,
    UnexpectedError(StoreError),
}

/// Map a fetched account row onto the fetch outcome.
pub fn user_fetch_outcome(fetched: Result<Option<User>, StoreError>) -> (r: UserFetchResult)
    ensures
        match fetched {
            Ok(Some(u)) => r matches UserFetchResult::Found(resp) && resp_matches_user(resp, u),
            Ok(None) => r is NotFound,
            Err(e) => r == UserFetchResult::UnexpectedError(e),
        },
{
    match fetched {
        Ok(Some(u)) => UserFetchResult::Found(FullUserResp::new(u)),
        Ok(None) => UserFetchResult::NotFound,
        Err(e) => UserFetchResult::UnexpectedError(e),
    }
}

/// Map a fetched page of account rows onto the list outcome.
pub fn user_list_outcome(fetched: Result<Vec<User>, StoreError>) -> (r: UserListFetchResult)
    ensures
        match fetched {
            Ok(users) => r matches UserListFetchResult::Fetched(list) && list.0@.len() == users@.len()
                && forall|i: int|
                0 <= i < users@.len() ==> resp_matches_user(#[trigger] list.0@[i], users@[i]),
            Err(e) => r == UserListFetchResult::UnexpectedError(e),
        },
{
    match fetched {
        Ok(users) => UserListFetchResult::Fetched(UserListResp::new(users)),
        Err(e) => UserListFetchResult::UnexpectedError(e),
    }
}

/// Map the result of inserting an account onto the add outcome.
pub fn user_add_outcome(res: Result<(), StoreError>) -> (r: UserAddResult)
    ensures
        match res {
            Ok(_) => r is Created,
            Err(e) => r == UserAddResult::UnexpectedError(e),
        },
{
    match res {
        Ok(_) => UserAddResult::Created,
        Err(e) => UserAddResult::UnexpectedError(e),
    }
}

/// Map the row re-fetched after a suspension update onto the outcome.
pub fn user_update_suspended_outcome(fetched: Result<Option<User>, StoreError>) -> (r:
    UserUpdateSuspendedResult)
    ensures
        match fetched {
            Ok(Some(u)) => r matches UserUpdateSuspendedResult::Updated(resp) && resp_matches_user(
                resp,
                u,
            ),
            Ok(None) => r is NotFound,
            Err(e) => r == UserUpdateSuspendedResult::UnexpectedError(e),
        },
{
    match fetched {
        Ok(Some(u)) => UserUpdateSuspendedResult::Updated(FullUserResp::new(u)),
        Ok(None) => UserUpdateSuspendedResult::NotFound,
        Err(e) => UserUpdateSuspendedResult::UnexpectedError(e),
    }
}

/// Map a fetched author and, when one was found, the lookup of their books
/// onto the fetch outcome.
pub fn author_fetch_outcome(
    author: Result<Option<Author>, StoreError>,
    books: Option<Result<Vec<Book>, StoreError>>,
) -> (r: AuthorFetchResult)
    requires
        (author matches Ok(a) && a is Some) <==> books is Some,
    ensures
        match author {
            Ok(Some(a)) => match books {
                Some(Ok(bs)) => r matches AuthorFetchResult::Found(resp) && resp_matches_author(
                    resp,
                    a,
                    bs@,
                ),
                Some(Err(e)) => r == AuthorFetchResult::UnexpectedError(e),
                None => false,
            },
            Ok(None) => r is NotFound,
            Err(e) => r == AuthorFetchResult::UnexpectedError(e),
        },
{
    match author {
        Ok(Some(a)) => match books {
            Some(Ok(bs)) => AuthorFetchResult::Found(FullAuthorResp::new(a, bs)),
            Some(Err(e)) => AuthorFetchResult::UnexpectedError(e),
            None => AuthorFetchResult::NotFound,  // unreachable: a found author has a books lookup
        },
        Ok(None) => AuthorFetchResult::NotFound,
        Err(e) => AuthorFetchResult::UnexpectedError(e),
    }
}

/// Map the result of inserting an author onto the add outcome.
pub fn author_add_outcome(res: Result<(), StoreError>) -> (r: AuthorAddResult)
    ensures
        match res {
            Ok(_) => r is Created,
            Err(e) => r == AuthorAddResult::UnexpectedError(e),
        },
{
    match res {
        Ok(_) => AuthorAddResult::Created,
        Err(e) => AuthorAddResult::UnexpectedError(e),
    }
}

/// Map a fetched page of authors and the per-author book lookups onto the
/// list outcome. The books argument is the collected lookups, or the first
/// error among them.
pub fn author_list_outcome(
    authors: Result<Vec<Author>, StoreError>,
    books: Result<Vec<Vec<Book>>, StoreError>,
) -> (r: AuthorListFetchResult)
    requires
        authors matches Ok(a) ==> (books matches Ok(b) ==> a@.len() == b@.len()),
    ensures
        match (authors, books) {
            (Ok(a), Ok(b)) => r matches AuthorListFetchResult::Fetched(list) && list@.len() == a@.len()
                && forall|i: int|
                0 <= i < a@.len() ==> resp_matches_author(#[trigger] list@[i], a@[i], b@[i]@),
            (Ok(_), Err(e)) => r == AuthorListFetchResult::UnexpectedError(e),
            (Err(e), _) => r == AuthorListFetchResult::UnexpectedError(e),
        },
{
    match authors {
        Ok(a) => match books {
            Ok(b) => {
                let list = AuthorListResp::new(a, b);
                AuthorListFetchResult::Fetched(list.0)
            },
            Err(e) => AuthorListFetchResult::UnexpectedError(e),
        },
        Err(e) => AuthorListFetchResult::UnexpectedError(e),
    }
}

/// Map the result of deleting an author onto the delete outcome.
pub fn author_delete_outcome(res: Result<(), StoreError>) -> (r: AuthorDeleteResult)
    ensures
        match res {
            Ok(_) => r is Deleted,
            Err(e) => r == AuthorDeleteResult::UnexpectedError(e),
        },
{
    match res {
        Ok(_) => AuthorDeleteResult::Deleted,
        Err(e) => AuthorDeleteResult::UnexpectedError(e),
    }
}

/// Map a fetched book and, when it references an author, that author's
/// lookup onto the fetch outcome.
pub fn book_fetch_outcome(
    book: Result<Option<Book>, StoreError>,
    author: Option<Result<Option<Author>, StoreError>>,
) -> (r: BookFetchResult)
    requires
        (book matches Ok(b) && b matches Some(bk) && bk.author_id is Some) <==> author is Some,
    ensures
        match book {
            Ok(Some(bk)) => match author {
                Some(Ok(a)) => r matches BookFetchResult::Found(resp) && resp_matches_book(
                    resp,
                    bk,
                    a,
                ),
                Some(Err(e)) => r == BookFetchResult::UnexpectedError(e),
                None => r matches BookFetchResult::Found(resp) && resp_matches_book(
                    resp,
                    bk,
                    None::<Author>,
                ),
            },
            Ok(None) => r is NotFound,
            Err(e) => r == BookFetchResult::UnexpectedError(e),
        },
{
    match book {
        Ok(Some(bk)) => match author {
            Some(Ok(a)) => BookFetchResult::Found(FullBookResp::new(bk, a)),
            Some(Err(e)) => BookFetchResult::UnexpectedError(e),
            None => BookFetchResult::Found(FullBookResp::new(bk, None)),
        },
        Ok(None) => BookFetchResult::NotFound,
        Err(e) => BookFetchResult::UnexpectedError(e),
    }
}

/// Decide whether adding a book may proceed. `lookup` is `None` when the
/// request names no author, else whether the named author exists. Returns
/// the early outcome, or `None` when the insert may go ahead.
pub fn book_add_precheck(lookup: Option<Result<bool, StoreError>>) -> (r: Option<BookAddResult>)
    ensures
        match lookup {
            None => r is None,
            Some(Ok(true)) => r is None,
            Some(Ok(false)) => r == Some(BookAddResult::AuthorNotFound),
            Some(Err(e)) => r == Some(BookAddResult::UnexpectedError(e)),
        },
{
    match lookup {
        None => None,
        Some(Ok(true)) => None,
        Some(Ok(false)) => Some(BookAddResult::AuthorNotFound),
        Some(Err(e)) => Some(BookAddResult::UnexpectedError(e)),
    }
}

/// Map the result of inserting a book onto the add outcome.
pub fn book_add_outcome(res: Result<(), StoreError>) -> (r: BookAddResult)
    ensures
        match res {
            Ok(_) => r is Created,
            Err(e) => r == BookAddResult::UnexpectedError(e),
        },
{
    match res {
        Ok(_) => BookAddResult::Created,
        Err(e) => BookAddResult::UnexpectedError(e),
    }
}

/// Map a fetched page of books and the per-book author lookups onto the
/// list outcome.
pub fn book_list_outcome(
    books: Result<Vec<Book>, StoreError>,
    authors: Result<Vec<Option<Author>>, StoreError>,
) -> (r: BookListFetchResult)
    requires
        books matches Ok(b) ==> (authors matches Ok(a) ==> b@.len() == a@.len()),
    ensures
        match (books, authors) {
            (Ok(b), Ok(a)) => r matches BookListFetchResult::Fetched(list) && list@.len() == b@.len()
                && forall|i: int|
                0 <= i < b@.len() ==> resp_matches_book(#[trigger] list@[i], b@[i], a@[i]),
            (Ok(_), Err(e)) => r == BookListFetchResult::UnexpectedError(e),
            (Err(e), _) => r == BookListFetchResult::UnexpectedError(e),
        },
{
    match books {
        Ok(b) => match authors {
            Ok(a) => {
                let list = BookListResp::new(b, a);
                BookListFetchResult::Fetched(list.0)
            },
            Err(e) => BookListFetchResult::UnexpectedError(e),
        },
        Err(e) => BookListFetchResult::UnexpectedError(e),
    }
}

/// Map the result of deleting a book onto the delete outcome.
pub fn book_delete_outcome(res: Result<(), StoreError>) -> (r: BookDeleteResult)
    ensures
        match res {
            Ok(_) => r is Deleted,
            Err(e) => r == BookDeleteResult::UnexpectedError(e),
        },
{
    match res {
        Ok(_) => BookDeleteResult::Deleted,
        Err(e) => BookDeleteResult::UnexpectedError(e),
    }
}

} // verus!
