use bookstore::claims::UserRole;
use bookstore::entities::{Author, Book, User};
use bookstore::requests::{AddAuthorReq, AddBookReq, RegisterReq};
use bookstore::services::{
    author_add_outcome, author_delete_outcome, author_fetch_outcome, author_list_outcome,
    book_add_outcome, book_add_precheck, book_delete_outcome, book_fetch_outcome,
    book_list_outcome, user_add_outcome, user_fetch_outcome, user_list_outcome,
    user_update_suspended_outcome, AuthorAddResult, AuthorDeleteResult, AuthorFetchResult,
    AuthorListFetchResult, BookAddResult, BookDeleteResult, BookFetchResult, BookListFetchResult,
    StoreError, UserAddResult, UserFetchResult, UserListFetchResult, UserUpdateSuspendedResult,
};

fn user(id: &str, nickname: &str, suspended: bool) -> User {
    User {
        id: id.to_string(),
        first_name: "Ada".to_string(),
        last_name: "Lovelace".to_string(),
        middle_name: Some("M".to_string()),
        nickname: nickname.to_string(),
        hashed_password: "secret-hash".to_string(),
        date_registered: 7,
        role: UserRole::User,
        suspended,
    }
}

fn author(id: &str) -> Author {
    Author {
        id: id.to_string(),
        first_name: "Leo".to_string(),
        last_name: "Tolstoy".to_string(),
        middle_name: None,
    }
}

fn book(id: &str, author_id: Option<&str>) -> Book {
    Book {
        id: id.to_string(),
        title: format!("title-{}", id),
        author_id: author_id.map(|s| s.to_string()),
    }
}

fn down() -> StoreError {
    StoreError { message: "connection refused".to_string() }
}

#[test]
fn user_fetch_cases() {
    match user_fetch_outcome(Ok(Some(user("u1", "ada", false)))) {
        UserFetchResult::Found(resp) => {
            assert_eq!(resp.id, "u1");
            assert_eq!(resp.nickname, "ada");
            assert!(!resp.suspended);
        }
        _ => panic!("expected Found"),
    }
    assert!(matches!(user_fetch_outcome(Ok(None)), UserFetchResult::NotFound));
    assert!(matches!(
        user_fetch_outcome(Err(down())),
        UserFetchResult::UnexpectedError(_)
    ));
}

#[test]
fn user_list_keeps_order() {
    let rows = vec![user("u1", "a", false), user("u2", "b", true), user("u3", "c", false)];
    match user_list_outcome(Ok(rows)) {
        UserListFetchResult::Fetched(list) => {
            let ids: Vec<&str> = list.0.iter().map(|r| r.id.as_str()).collect();
            assert_eq!(ids, ["u1", "u2", "u3"]);
            assert!(list.0[1].suspended);
        }
        _ => panic!("expected Fetched"),
    }
    assert!(matches!(
        user_list_outcome(Err(down())),
        UserListFetchResult::UnexpectedError(_)
    ));
}

#[test]
fn user_add_and_update_cases() {
    assert!(matches!(user_add_outcome(Ok(())), UserAddResult::Created));
    assert!(matches!(
        user_add_outcome(Err(down())),
        UserAddResult::UnexpectedError(_)
    ));
    match user_update_suspended_outcome(Ok(Some(user("u1", "ada", true)))) {
        UserUpdateSuspendedResult::Updated(resp) => assert!(resp.suspended),
        _ => panic!("expected Updated"),
    }
    assert!(matches!(
        user_update_suspended_outcome(Ok(None)),
        UserUpdateSuspendedResult::NotFound
    ));
    assert!(matches!(
        user_update_suspended_outcome(Err(down())),
        UserUpdateSuspendedResult::UnexpectedError(_)
    ));
}

#[test]
fn author_fetch_cases() {
    let books = vec![book("b1", Some("a1")), book("b2", Some("a1"))];
    match author_fetch_outcome(Ok(Some(author("a1"))), Some(Ok(books))) {
        AuthorFetchResult::Found(resp) => {
            assert_eq!(resp.id, "a1");
            assert_eq!(resp.books.len(), 2);
            assert_eq!(resp.books[0].id, "b1");
        }
        _ => panic!("expected Found"),
    }
    assert!(matches!(
        author_fetch_outcome(Ok(None), None),
        AuthorFetchResult::NotFound
    ));
    assert!(matches!(
        author_fetch_outcome(Ok(Some(author("a1"))), Some(Err(down()))),
        AuthorFetchResult::UnexpectedError(_)
    ));
    assert!(matches!(
        author_fetch_outcome(Err(down()), None),
        AuthorFetchResult::UnexpectedError(_)
    ));
}

#[test]
fn author_list_zips_books() {
    let authors = vec![author("a1"), author("a2")];
    let books = vec![vec![book("b1", Some("a1"))], vec![]];
    match author_list_outcome(Ok(authors), Ok(books)) {
        AuthorListFetchResult::Fetched(list) => {
            assert_eq!(list.len(), 2);
            assert_eq!(list[0].books.len(), 1);
            assert_eq!(list[1].books.len(), 0);
        }
        _ => panic!("expected Fetched"),
    }
    assert!(matches!(
        author_list_outcome(Ok(vec![]), Err(down())),
        AuthorListFetchResult::UnexpectedError(_)
    ));
}

#[test]
fn author_add_delete_cases() {
    assert!(matches!(author_add_outcome(Ok(())), AuthorAddResult::Created));
    assert!(matches!(
        author_add_outcome(Err(down())),
        AuthorAddResult::UnexpectedError(_)
    ));
    assert!(matches!(author_delete_outcome(Ok(())), AuthorDeleteResult::Deleted));
    assert!(matches!(
        author_delete_outcome(Err(down())),
        AuthorDeleteResult::UnexpectedError(_)
    ));
}

#[test]
fn book_fetch_cases() {
    match book_fetch_outcome(Ok(Some(book("b1", Some("a1")))), Some(Ok(Some(author("a1"))))) {
        BookFetchResult::Found(resp) => {
            assert_eq!(resp.id, "b1");
            assert_eq!(resp.author.as_ref().map(|a| a.id.as_str()), Some("a1"));
        }
        _ => panic!("expected Found"),
    }
    // a book without an author reference never triggers the author lookup
    match book_fetch_outcome(Ok(Some(book("b2", None))), None) {
        BookFetchResult::Found(resp) => assert!(resp.author.is_none()),
        _ => panic!("expected Found"),
    }
    assert!(matches!(
        book_fetch_outcome(Ok(None), None),
        BookFetchResult::NotFound
    ));
    assert!(matches!(
        book_fetch_outcome(Err(down()), None),
        BookFetchResult::UnexpectedError(_)
    ));
}

#[test]
fn book_add_cases() {
    assert!(book_add_precheck(None).is_none());
    assert!(book_add_precheck(Some(Ok(true))).is_none());
    assert!(matches!(
        book_add_precheck(Some(Ok(false))),
        Some(BookAddResult::AuthorNotFound)
    ));
    assert!(matches!(
        book_add_precheck(Some(Err(down()))),
        Some(BookAddResult::UnexpectedError(_))
    ));
    assert!(matches!(book_add_outcome(Ok(())), BookAddResult::Created));
    assert!(matches!(
        book_add_outcome(Err(down())),
        BookAddResult::UnexpectedError(_)
    ));
}

#[test]
fn book_list_zips_authors() {
    let books = vec![book("b1", Some("a1")), book("b2", None)];
    let authors = vec![Some(author("a1")), None];
    match book_list_outcome(Ok(books), Ok(authors)) {
        BookListFetchResult::Fetched(list) => {
            assert_eq!(list.len(), 2);
            assert_eq!(list[0].author.as_ref().map(|a| a.id.as_str()), Some("a1"));
            assert!(list[1].author.is_none());
        }
        _ => panic!("expected Fetched"),
    }
}

#[test]
fn book_delete_cases() {
    assert!(matches!(book_delete_outcome(Ok(())), BookDeleteResult::Deleted));
    assert!(matches!(
        book_delete_outcome(Err(down())),
        BookDeleteResult::UnexpectedError(_)
    ));
}

#[test]
fn entity_constructors() {
    let u = User::new(
        RegisterReq {
            first_name: "Ada".to_string(),
            last_name: "Lovelace".to_string(),
            middle_name: None,
            nickname: "ada".to_string(),
            password: "pw".to_string(),
        },
        "id-9".to_string(),
        100,
    );
    assert_eq!(u.id, "id-9");
    assert_eq!(u.hashed_password, "");
    assert!(matches!(u.role, UserRole::User));
    assert!(!u.suspended);

    let a = Author::new(
        AddAuthorReq {
            first_name: "Leo".to_string(),
            last_name: "Tolstoy".to_string(),
            middle_name: None,
        },
        "a-1".to_string(),
    );
    assert_eq!(a.id, "a-1");
    assert_eq!(a.first_name, "Leo");

    let b = Book::new(
        AddBookReq { title: "War and Peace".to_string(), author_id: Some("a-1".to_string()) },
        "b-1".to_string(),
    );
    assert_eq!(b.id, "b-1");
    assert_eq!(b.author_id.as_deref(), Some("a-1"));
}
