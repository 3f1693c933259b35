//! The records stored in the datastore: the user entity the commands operate
//! on, and the post entity that is modeled but not reached by any command.

use vstd::prelude::*;

verus! {

/// One row of the users table.
#[derive(Debug)]
pub struct User {
    pub id: i64,
    pub username: String,
    pub email: String,
}

/// The mathematical value of a [`User`]: its fields as plain sequences.
pub struct UserV {
    pub id: int,
    pub username: Seq<char>,
    pub email: Seq<char>,
}

impl View for User {
    type V = UserV;

    open spec fn view(&self) -> UserV {
        UserV { id: self.id as int, username: self.username@, email: self.email@ }
    }
}

impl User {
    /// A copy of the row with the same field values.
    pub fn duplicate(&self) -> (r: User)
        ensures
            r@ == self@,
    {
        User { id: self.id, username: self.username.clone(), email: self.email.clone() }
    }
}

/// One row of the posts table. No command operates on posts; the entity is
/// modeled so the schema can carry it.
#[derive(Debug)]
pub struct Post {
    pub id: i64,
    pub title: String,
    pub body: String,
    pub author: i64,
    pub published: bool,
}

} // verus!
