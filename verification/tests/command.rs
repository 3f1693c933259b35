use sqlstuff::command::{execute_action, validate_action, ActionOutput, DbAction};
use sqlstuff::error::{CmdError, DbError, InputError, MyError, QueryError};
use sqlstuff::table::{UsersTable, CRUD};

fn create(username: &str, email: &str) -> DbAction {
    DbAction::CreateUser { username: username.to_string(), email: email.to_string() }
}

#[test]
fn validate_accepts_good_create() {
    let a = create("alice", "alice@example.com");
    assert!(validate_action(&a).is_ok());
}

#[test]
fn validate_rejects_empty_username() {
    let a = create("", "alice@example.com");
    assert_eq!(validate_action(&a).unwrap_err(), InputError::EmptyUsername);
}

#[test]
fn validate_rejects_empty_email() {
    let a = create("alice", "");
    assert_eq!(validate_action(&a).unwrap_err(), InputError::EmptyEmail);
}

#[test]
fn validate_rejects_email_with_space() {
    let a = create("alice", "alice @example.com");
    assert_eq!(validate_action(&a).unwrap_err(), InputError::EmailHasSpace);
}

#[test]
fn validate_rejects_email_without_at() {
    let a = create("alice", "alice.example.com");
    assert_eq!(validate_action(&a).unwrap_err(), InputError::EmailMissingAt);
}

#[test]
fn validate_checks_optional_update_fields() {
    let a = DbAction::UpdateUser {
        id: 1,
        username: None,
        email: Some("no at sign".to_string()),
    };
    assert_eq!(validate_action(&a).unwrap_err(), InputError::EmailHasSpace);
    let b = DbAction::UpdateUser { id: 1, username: Some(String::new()), email: None };
    assert_eq!(validate_action(&b).unwrap_err(), InputError::EmptyUsername);
    let c = DbAction::UpdateUser { id: 1, username: None, email: None };
    assert!(validate_action(&c).is_ok());
}

#[test]
fn validate_checks_find_email() {
    let a = DbAction::FindUser { id: None, email: Some("bad".to_string()) };
    assert_eq!(validate_action(&a).unwrap_err(), InputError::EmailMissingAt);
    let b = DbAction::FindUser { id: None, email: None };
    assert!(validate_action(&b).is_ok());
}

#[test]
fn rejected_command_reaches_no_datastore() {
    let mut t = UsersTable::new();
    let r = execute_action(&mut t, &create("alice", "not-an-email"));
    assert_eq!(r.unwrap_err(), CmdError::Rejected(InputError::EmailMissingAt));
    // Nothing was stored: the id a later create hands out is still 1.
    let id = t.create_user("alice", "alice@example.com").unwrap();
    assert_eq!(id, 1);
}

#[test]
fn end_to_end_scenario() {
    let mut t = UsersTable::new();

    let r = execute_action(&mut t, &create("alice", "alice@example.com")).unwrap();
    let id = match r {
        ActionOutput::Created(id) => id,
        _ => panic!("expected a created id"),
    };
    assert_eq!(id, 1);

    let r = execute_action(&mut t, &DbAction::FindUser { id: Some(1), email: None }).unwrap();
    match r {
        ActionOutput::Found(u) => {
            assert_eq!(u.username, "alice");
            assert_eq!(u.email, "alice@example.com");
        },
        _ => panic!("expected a found record"),
    }

    let r = execute_action(
        &mut t,
        &DbAction::UpdateUser { id: 1, username: None, email: Some("bob@example.com".to_string()) },
    )
    .unwrap();
    assert!(matches!(r, ActionOutput::Updated(1)));

    let r = execute_action(&mut t, &DbAction::FindUser { id: Some(1), email: None }).unwrap();
    match r {
        ActionOutput::Found(u) => assert_eq!(u.email, "bob@example.com"),
        _ => panic!("expected a found record"),
    }

    let r = execute_action(&mut t, &DbAction::DeleteUser { id: 1 }).unwrap();
    assert!(matches!(r, ActionOutput::Deleted(1)));

    let r = execute_action(&mut t, &DbAction::FindUser { id: Some(1), email: None });
    assert_eq!(r.unwrap_err(), CmdError::Db(DbError::Datastore(QueryError::NotFound)));
}

#[test]
fn dispatched_errors_are_wrapped() {
    let mut t = UsersTable::new();
    execute_action(&mut t, &create("alice", "alice@example.com")).unwrap();
    let r = execute_action(&mut t, &create("bob", "alice@example.com"));
    assert_eq!(r.unwrap_err(), CmdError::Db(DbError::Datastore(QueryError::UniqueViolation)));
    let r = execute_action(&mut t, &DbAction::UpdateUser { id: 1, username: None, email: None });
    assert_eq!(r.unwrap_err(), CmdError::Db(DbError::Validation(MyError::NoFieldsSet)));
}
