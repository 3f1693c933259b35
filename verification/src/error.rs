//! The error taxonomy: configuration and migration failures (raised only by
//! the front end), datastore failures, and validation failures.

use vstd::prelude::*;

verus! {

/// Logic-level contract violations of the data access layer.
#[derive(Debug, PartialEq, Eq, Structural, Clone, Copy)]
pub enum MyError {
    /// The operation exists in the vocabulary but has no implementation.
    Unimplemented,
    /// An update or a lookup was asked for with no field supplied.
    NoFieldsSet,
}

/// Failures the datastore itself reports on a statement.
#[derive(Debug, PartialEq, Eq, Structural, Clone, Copy)]
pub enum QueryError {
    /// An exactly-one-row fetch found no row.
    NotFound,
    /// A write would break the unique-email constraint.
    UniqueViolation,
}

/// Everything a data access operation can fail with.
#[derive(Debug, PartialEq, Eq, Structural, Clone, Copy)]
pub enum DbError {
    /// The required connection-string value was absent at startup.
    Configuration,
    /// The schema bootstrap failed at startup.
    Migration,
    /// The datastore rejected or could not run the statement.
    Datastore(QueryError),
    /// The call itself broke the layer's contract.
    Validation(MyError),
}

/// Input-shape violations the command layer finds before any datastore work.
#[derive(Debug, PartialEq, Eq, Structural, Clone, Copy)]
pub enum InputError {
    EmptyUsername,
    EmptyEmail,
    EmailHasSpace,
    EmailMissingAt,
}

impl InputError {
    /// The field-specific message shown to the user.
    pub fn message(&self) -> (r: String)
        ensures
            *self == InputError::EmptyUsername ==> r@ == "username cannot be empty"@,
            *self == InputError::EmptyEmail ==> r@ == "email cannot be empty"@,
            *self == InputError::EmailHasSpace ==> r@ == "email cannot contain spaces"@,
            *self == InputError::EmailMissingAt ==> r@ == "email is not valid"@,
    {
        match self {
            InputError::EmptyUsername => "username cannot be empty".to_string(),
            InputError::EmptyEmail => "email cannot be empty".to_string(),
            InputError::EmailHasSpace => "email cannot contain spaces".to_string(),
            InputError::EmailMissingAt => "email is not valid".to_string(),
        }
    }
}

/// Everything a whole command can fail with: a rejection before dispatch, or
/// a failure of the one datastore operation it performs.
#[derive(Debug, PartialEq, Eq, Structural, Clone, Copy)]
pub enum CmdError {
    /// The command layer refused the arguments before any datastore call.
    Rejected(InputError),
    /// The dispatched operation failed.
    Db(DbError),
}

} // verus!
