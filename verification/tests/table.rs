use sqlstuff::error::{DbError, MyError, QueryError};
use sqlstuff::table::{UsersTable, CRUD};

#[test]
fn create_then_find_by_id() {
    let mut t = UsersTable::new();
    let id = t.create_user("alice", "alice@example.com").unwrap();
    assert_eq!(id, 1);
    let u = t.find_user(Some(id), None).unwrap();
    assert_eq!(u.id, 1);
    assert_eq!(u.username, "alice");
    assert_eq!(u.email, "alice@example.com");
}

#[test]
fn created_ids_increase() {
    let mut t = UsersTable::new();
    assert_eq!(t.create_user("alice", "alice@example.com").unwrap(), 1);
    assert_eq!(t.create_user("bob", "bob@example.com").unwrap(), 2);
}

#[test]
fn find_by_email() {
    let mut t = UsersTable::new();
    t.create_user("alice", "alice@example.com").unwrap();
    t.create_user("bob", "bob@example.com").unwrap();
    let u = t.find_user(None, Some("bob@example.com")).unwrap();
    assert_eq!(u.id, 2);
    assert_eq!(u.username, "bob");
}

#[test]
fn duplicate_email_rejected() {
    let mut t = UsersTable::new();
    t.create_user("alice", "alice@example.com").unwrap();
    let r = t.create_user("bob", "alice@example.com");
    assert_eq!(r.unwrap_err(), DbError::Datastore(QueryError::UniqueViolation));
}

#[test]
fn update_first_match_wins() {
    let mut t = UsersTable::new();
    let id = t.create_user("alice", "alice@example.com").unwrap();
    t.update_user(id, Some("bob"), Some("x@y.com")).unwrap();
    let u = t.find_user(Some(id), None).unwrap();
    assert_eq!(u.username, "bob");
    assert_eq!(u.email, "alice@example.com");
}

#[test]
fn update_email_alone_applies() {
    let mut t = UsersTable::new();
    let id = t.create_user("alice", "alice@example.com").unwrap();
    t.update_user(id, None, Some("bob@example.com")).unwrap();
    let u = t.find_user(Some(id), None).unwrap();
    assert_eq!(u.username, "alice");
    assert_eq!(u.email, "bob@example.com");
}

#[test]
fn update_email_to_taken_email_rejected() {
    let mut t = UsersTable::new();
    t.create_user("alice", "alice@example.com").unwrap();
    let id = t.create_user("bob", "bob@example.com").unwrap();
    let r = t.update_user(id, None, Some("alice@example.com"));
    assert_eq!(r.unwrap_err(), DbError::Datastore(QueryError::UniqueViolation));
    let u = t.find_user(Some(id), None).unwrap();
    assert_eq!(u.email, "bob@example.com");
}

#[test]
fn update_email_to_own_email_succeeds() {
    let mut t = UsersTable::new();
    let id = t.create_user("alice", "alice@example.com").unwrap();
    t.update_user(id, None, Some("alice@example.com")).unwrap();
    let u = t.find_user(Some(id), None).unwrap();
    assert_eq!(u.email, "alice@example.com");
}

#[test]
fn update_nothing_is_an_error() {
    let mut t = UsersTable::new();
    let id = t.create_user("alice", "alice@example.com").unwrap();
    let r = t.update_user(id, None, None);
    assert_eq!(r.unwrap_err(), DbError::Validation(MyError::NoFieldsSet));
}

#[test]
fn update_missing_id_succeeds_silently() {
    let mut t = UsersTable::new();
    t.update_user(99, Some("bob"), None).unwrap();
    let r = t.find_user(Some(99), None);
    assert_eq!(r.unwrap_err(), DbError::Datastore(QueryError::NotFound));
}

#[test]
fn find_nothing_is_an_error() {
    let t = UsersTable::new();
    let r = t.find_user(None, None);
    assert_eq!(r.unwrap_err(), DbError::Validation(MyError::NoFieldsSet));
}

#[test]
fn find_missing_id_is_not_found() {
    let t = UsersTable::new();
    let r = t.find_user(Some(1), None);
    assert_eq!(r.unwrap_err(), DbError::Datastore(QueryError::NotFound));
}

#[test]
fn find_missing_email_is_not_found() {
    let t = UsersTable::new();
    let r = t.find_user(None, Some("alice@example.com"));
    assert_eq!(r.unwrap_err(), DbError::Datastore(QueryError::NotFound));
}

#[test]
fn delete_then_find_is_not_found() {
    let mut t = UsersTable::new();
    let id = t.create_user("alice", "alice@example.com").unwrap();
    t.delete_user(id).unwrap();
    let r = t.find_user(Some(id), None);
    assert_eq!(r.unwrap_err(), DbError::Datastore(QueryError::NotFound));
}

#[test]
fn delete_missing_id_succeeds() {
    let mut t = UsersTable::new();
    t.delete_user(42).unwrap();
    let r = t.find_user(Some(42), None);
    assert_eq!(r.unwrap_err(), DbError::Datastore(QueryError::NotFound));
}

#[test]
fn failed_create_consumes_no_id() {
    let mut t = UsersTable::new();
    t.create_user("alice", "alice@example.com").unwrap();
    t.create_user("bob", "alice@example.com").unwrap_err();
    let id = t.create_user("bob", "bob@example.com").unwrap();
    assert_eq!(id, 2);
}

#[test]
fn handles_non_ascii_strings() {
    let mut t = UsersTable::new();
    let id = t.create_user("ålice", "ålice@exämple.com").unwrap();
    let u = t.find_user(None, Some("ålice@exämple.com")).unwrap();
    assert_eq!(u.id, id);
    assert_eq!(u.username, "ålice");
}

#[test]
fn delete_frees_the_email() {
    let mut t = UsersTable::new();
    let id = t.create_user("alice", "alice@example.com").unwrap();
    t.delete_user(id).unwrap();
    let id2 = t.create_user("alice", "alice@example.com").unwrap();
    assert_eq!(id2, 2);
}
