//! The command layer: the fixed command vocabulary, the shape-level checks
//! run before anything reaches the table, and the dispatch of one command to
//! the one table operation it stands for.

use vstd::prelude::*;

use crate::error::{CmdError, DbError, InputError};
use crate::table::{
    email_conflict, has_email, has_id, user_with_email, user_with_id, with_email, with_username,
    without_id, CRUD,
};
use crate::user::{User, UserV};
use crate::validate::{contains_char, has_char};

verus! {

/// The command vocabulary of the tool.
#[derive(Debug)]
pub enum DbAction {
    /// `create-user username email`
    CreateUser { username: String, email: String },
    /// `update-user id [--username U] [--email E]`
    UpdateUser { id: i64, username: Option<String>, email: Option<String> },
    /// `find-user [--id I] [--email E]`
    FindUser { id: Option<i64>, email: Option<String> },
    /// `delete-user id`
    DeleteUser { id: i64 },
}

/// What a successful command reports.
#[derive(Debug)]
pub enum ActionOutput {
    Created(i64),
    Updated(i64),
    Found(User),
    Deleted(i64),
}

/// The first shape error of an email argument, if any: it must be non-empty,
/// contain no space, and contain an '@'.
pub open spec fn email_error(e: Seq<char>) -> Option<InputError> {
    if e.len() == 0 {
        Some(InputError::EmptyEmail)
    } else if has_char(e, ' ') {
        Some(InputError::EmailHasSpace)
    } else if !has_char(e, '@') {
        Some(InputError::EmailMissingAt)
    } else {
        None
    }
}

/// The first shape error of a command's arguments, if any. Usernames must be
/// non-empty; email arguments, wherever accepted, must have the email shape;
/// ids are never shape-checked.
pub open spec fn action_error(a: DbAction) -> Option<InputError> {
    match a {
        DbAction::CreateUser { username, email } => {
            if username@.len() == 0 {
                Some(InputError::EmptyUsername)
            } else {
                email_error(email@)
            }
        },
        DbAction::UpdateUser { id, username, email } => {
            if username matches Some(u) && u@.len() == 0 {
                Some(InputError::EmptyUsername)
            } else {
                match email {
                    Some(e) => email_error(e@),
                    None => None,
                }
            }
        },
        DbAction::FindUser { id, email } => {
            match email {
                Some(e) => email_error(e@),
                None => None,
            }
        },
        DbAction::DeleteUser { id } => None,
    }
}

/// The command's arguments pass every shape-level check.
pub open spec fn action_valid(a: DbAction) -> bool {
    action_error(a) is None
}

/// Checks one email argument, reporting its first shape error.
fn check_email(email: &str) -> (r: Result<(), InputError>)
    ensures
        r == match email_error(email@) {
            Some(err) => Err::<(), InputError>(err),
            None => Ok::<(), InputError>(()),
        },
{
    if email.is_empty() {
        Err(InputError::EmptyEmail)
    } else if contains_char(email, ' ') {
        Err(InputError::EmailHasSpace)
    } else if !contains_char(email, '@') {
        Err(InputError::EmailMissingAt)
    } else {
        Ok(())
    }
}

/// Checks a command's arguments, reporting the first shape error; no
/// datastore work happens here.
pub fn validate_action(a: &DbAction) -> (r: Result<(), InputError>)
    ensures
        r == match action_error(*a) {
            Some(err) => Err::<(), InputError>(err),
            None => Ok::<(), InputError>(()),
        },
        r is Ok <==> action_valid(*a),
{
    match a {
        DbAction::CreateUser { username, email } => {
            if username.as_str().is_empty() {
                Err(InputError::EmptyUsername)
            } else {
                check_email(email.as_str())
            }
        },
        DbAction::UpdateUser { id, username, email } => {
            if let Some(u) = username {
                if u.as_str().is_empty() {
                    return Err(InputError::EmptyUsername);
                }
            }
            if let Some(e) = email {
                check_email(e.as_str())
            } else {
                Ok(())
            }
        },
        DbAction::FindUser { id, email } => {
            if let Some(e) = email {
                check_email(e.as_str())
            } else {
                Ok(())
            }
        },
        DbAction::DeleteUser { id } => Ok(()),
    }
}

/// The one field an update applies.
#[derive(Debug)]
pub enum UpdateField {
    Username(String),
    Email(String),
}

/// The key a lookup uses.
#[derive(Debug)]
pub enum LookupKey {
    ById(i64),
    ByEmail(String),
}

/// Decides which field an update applies: the username when one is supplied
/// (a supplied email is then ignored — first match wins), else the email;
/// with neither, the call is in error. Front ends over a remote datastore
/// issue one statement for the chosen field.
pub fn choose_update_field(username: Option<&str>, email: Option<&str>) -> (r: Result<
    UpdateField,
    DbError,
>)
    ensures
        match (username, email) {
            (Some(u), _) => {
                &&& r is Ok
                &&& r->Ok_0 matches UpdateField::Username(s) && s@ == u@
            },
            (None, Some(e)) => {
                &&& r is Ok
                &&& r->Ok_0 matches UpdateField::Email(s) && s@ == e@
            },
            (None, None) => r == Err::<UpdateField, DbError>(
                DbError::Validation(crate::error::MyError::NoFieldsSet),
            ),
        },
{
    if let Some(u) = username {
        Ok(UpdateField::Username(u.to_string()))
    } else if let Some(e) = email {
        Ok(UpdateField::Email(e.to_string()))
    } else {
        Err(DbError::Validation(crate::error::MyError::NoFieldsSet))
    }
}

/// Decides which key a lookup uses: the id when one is given, else the
/// email; with neither, the call is in error.
pub fn choose_lookup_key(id: Option<i64>, email: Option<&str>) -> (r: Result<LookupKey, DbError>)
    ensures
        match (id, email) {
            (Some(i), _) => {
                &&& r is Ok
                &&& r->Ok_0 matches LookupKey::ById(k) && k == i
            },
            (None, Some(e)) => {
                &&& r is Ok
                &&& r->Ok_0 matches LookupKey::ByEmail(s) && s@ == e@
            },
            (None, None) => r == Err::<LookupKey, DbError>(
                DbError::Validation(crate::error::MyError::NoFieldsSet),
            ),
        },
{
    if let Some(i) = id {
        Ok(LookupKey::ById(i))
    } else if let Some(e) = email {
        Ok(LookupKey::ByEmail(e.to_string()))
    } else {
        Err(DbError::Validation(crate::error::MyError::NoFieldsSet))
    }
}

/// Runs one command against a users-table backend: the arguments are checked
/// first and a bad command is rejected with the table untouched; a good
/// command performs exactly its one table operation and reports the
/// operation's outcome.
pub fn execute_action<T: CRUD>(table: &mut T, action: &DbAction) -> (r: Result<
    ActionOutput,
    CmdError,
>)
    requires
        old(table).wf(),
        old(table).next_id_view() < i64::MAX,
    ensures
        final(table).wf(),
        match action_error(*action) {
            Some(err) => {
                &&& r == Err::<ActionOutput, CmdError>(CmdError::Rejected(err))
                &&& final(table).rows_view() == old(table).rows_view()
                &&& final(table).next_id_view() == old(table).next_id_view()
            },
            None => match *action {
                DbAction::CreateUser { username, email } => match r {
                    Ok(out) => {
                        &&& out matches ActionOutput::Created(id)
                        &&& !has_email(old(table).rows_view(), email@)
                        &&& id as int == old(table).next_id_view()
                        &&& final(table).rows_view() == old(table).rows_view().push(
                            UserV { id: id as int, username: username@, email: email@ },
                        )
                        &&& final(table).next_id_view() == old(table).next_id_view() + 1
                    },
                    Err(e) => {
                        &&& e == CmdError::Db(
                            DbError::Datastore(crate::error::QueryError::UniqueViolation),
                        )
                        &&& has_email(old(table).rows_view(), email@)
                        &&& final(table).rows_view() == old(table).rows_view()
                        &&& final(table).next_id_view() == old(table).next_id_view()
                    },
                },
                DbAction::UpdateUser { id, username, email } => {
                    &&& final(table).next_id_view() == old(table).next_id_view()
                    &&& match (username, email) {
                        (Some(u), _) => r == Ok::<ActionOutput, CmdError>(
                            ActionOutput::Updated(id),
                        ) && final(table).rows_view() == with_username(
                            old(table).rows_view(),
                            id as int,
                            u@,
                        ),
                        (None, Some(e)) => {
                            if email_conflict(old(table).rows_view(), id as int, e@) {
                                r == Err::<ActionOutput, CmdError>(
                                    CmdError::Db(
                                        DbError::Datastore(
                                            crate::error::QueryError::UniqueViolation,
                                        ),
                                    ),
                                ) && final(table).rows_view() == old(table).rows_view()
                            } else {
                                r == Ok::<ActionOutput, CmdError>(ActionOutput::Updated(id))
                                    && final(table).rows_view() == with_email(
                                    old(table).rows_view(),
                                    id as int,
                                    e@,
                                )
                            }
                        },
                        (None, None) => r == Err::<ActionOutput, CmdError>(
                            CmdError::Db(DbError::Validation(crate::error::MyError::NoFieldsSet)),
                        ) && final(table).rows_view() == old(table).rows_view(),
                    }
                },
                DbAction::FindUser { id, email } => {
                    &&& final(table).rows_view() == old(table).rows_view()
                    &&& final(table).next_id_view() == old(table).next_id_view()
                    &&& match (id, email) {
                        (Some(i), _) => {
                            if has_id(old(table).rows_view(), i as int) {
                                &&& r is Ok
                                &&& r->Ok_0 matches ActionOutput::Found(u) && u@ == user_with_id(
                                    old(table).rows_view(),
                                    i as int,
                                )
                            } else {
                                r == Err::<ActionOutput, CmdError>(
                                    CmdError::Db(
                                        DbError::Datastore(crate::error::QueryError::NotFound),
                                    ),
                                )
                            }
                        },
                        (None, Some(e)) => {
                            if has_email(old(table).rows_view(), e@) {
                                &&& r is Ok
                                &&& r->Ok_0 matches ActionOutput::Found(u) && u@
                                    == user_with_email(old(table).rows_view(), e@)
                            } else {
                                r == Err::<ActionOutput, CmdError>(
                                    CmdError::Db(
                                        DbError::Datastore(crate::error::QueryError::NotFound),
                                    ),
                                )
                            }
                        },
                        (None, None) => r == Err::<ActionOutput, CmdError>(
                            CmdError::Db(DbError::Validation(crate::error::MyError::NoFieldsSet)),
                        ),
                    }
                },
                DbAction::DeleteUser { id } => {
                    &&& r == Ok::<ActionOutput, CmdError>(ActionOutput::Deleted(id))
                    &&& final(table).rows_view() == without_id(old(table).rows_view(), id as int)
                    &&& !has_id(final(table).rows_view(), id as int)
                    &&& final(table).next_id_view() == old(table).next_id_view()
                },
            },
        },
{
    if let Err(err) = validate_action(action) {
        return Err(CmdError::Rejected(err));
    }
    match action {
        DbAction::CreateUser { username, email } => {
            match table.create_user(username.as_str(), email.as_str()) {
                Ok(id) => Ok(ActionOutput::Created(id)),
                Err(e) => Err(CmdError::Db(e)),
            }
        },
        DbAction::UpdateUser { id, username, email } => {
            let uname: Option<&str> = match username {
                Some(u) => Some(u.as_str()),
                None => None,
            };
            let mail: Option<&str> = match email {
                Some(e) => Some(e.as_str()),
                None => None,
            };
            match table.update_user(*id, uname, mail) {
                Ok(_) => Ok(ActionOutput::Updated(*id)),
                Err(e) => Err(CmdError::Db(e)),
            }
        },
        DbAction::FindUser { id, email } => {
            let mail: Option<&str> = match email {
                Some(e) => Some(e.as_str()),
                None => None,
            };
            match table.find_user(*id, mail) {
                Ok(u) => Ok(ActionOutput::Found(u)),
                Err(e) => Err(CmdError::Db(e)),
            }
        },
        DbAction::DeleteUser { id } => {
            match table.delete_user(*id) {
                Ok(_) => Ok(ActionOutput::Deleted(*id)),
                Err(e) => Err(CmdError::Db(e)),
            }
        },
    }
}

} // verus!
