//! The users table and its four operations. [`UsersTable`] holds the rows in
//! memory with the same observable behaviour as the SQL statements the front
//! end issues: generated increasing ids, a unique-email constraint on writes,
//! exactly-one-row lookups, and silent success when an update or a delete
//! matches no row.

use vstd::prelude::*;

use crate::error::{DbError, MyError, QueryError};
use crate::user::{User, UserV};

verus! {

/// Some row carries this id.
pub open spec fn has_id(rows: Seq<UserV>, id: int) -> bool {
    exists|i: int| 0 <= i < rows.len() && rows[i].id == id
}

/// Some row carries this email.
pub open spec fn has_email(rows: Seq<UserV>, email: Seq<char>) -> bool {
    exists|i: int| 0 <= i < rows.len() && rows[i].email == email
}

/// The position of the row carrying `id`; meaningful only when `has_id`.
pub open spec fn idx_of_id(rows: Seq<UserV>, id: int) -> int {
    choose|i: int| 0 <= i < rows.len() && rows[i].id == id
}

/// The row carrying `id`; meaningful only when `has_id`.
pub open spec fn user_with_id(rows: Seq<UserV>, id: int) -> UserV {
    rows[idx_of_id(rows, id)]
}

/// The position of the row carrying `email`; meaningful only when `has_email`.
pub open spec fn idx_of_email(rows: Seq<UserV>, email: Seq<char>) -> int {
    choose|i: int| 0 <= i < rows.len() && rows[i].email == email
}

/// The row carrying `email`; meaningful only when `has_email`.
pub open spec fn user_with_email(rows: Seq<UserV>, email: Seq<char>) -> UserV {
    rows[idx_of_email(rows, email)]
}

/// No two rows share an id.
pub open spec fn ids_distinct(rows: Seq<UserV>) -> bool {
    forall|i: int, j: int| 0 <= i < j < rows.len() ==> rows[i].id != rows[j].id
}

/// No two rows share an email: the unique-email constraint.
pub open spec fn emails_distinct(rows: Seq<UserV>) -> bool {
    forall|i: int, j: int| 0 <= i < j < rows.len() ==> rows[i].email != rows[j].email
}

/// Every id was generated: at least 1 and below the next id to hand out.
pub open spec fn ids_generated(rows: Seq<UserV>, next_id: int) -> bool {
    forall|i: int| 0 <= i < rows.len() ==> 1 <= #[trigger] rows[i].id < next_id
}

/// The table's invariant over its mathematical contents.
pub open spec fn table_wf(rows: Seq<UserV>, next_id: int) -> bool {
    &&& ids_distinct(rows)
    &&& emails_distinct(rows)
    &&& ids_generated(rows, next_id)
    &&& 1 <= next_id
}

/// `rows` with the username of the row carrying `id` (if any) replaced.
pub open spec fn with_username(rows: Seq<UserV>, id: int, username: Seq<char>) -> Seq<UserV> {
    Seq::new(
        rows.len(),
        |i: int|
            if rows[i].id == id {
                UserV { id: rows[i].id, username: username, email: rows[i].email }
            } else {
                rows[i]
            },
    )
}

/// `rows` with the email of the row carrying `id` (if any) replaced.
pub open spec fn with_email(rows: Seq<UserV>, id: int, email: Seq<char>) -> Seq<UserV> {
    Seq::new(
        rows.len(),
        |i: int|
            if rows[i].id == id {
                UserV { id: rows[i].id, username: rows[i].username, email: email }
            } else {
                rows[i]
            },
    )
}

/// Updating the email of the row carrying `id` would break uniqueness: the
/// row exists and a different row already carries that email.
pub open spec fn email_conflict(rows: Seq<UserV>, id: int, email: Seq<char>) -> bool {
    has_id(rows, id) && exists|i: int|
        0 <= i < rows.len() && rows[i].id != id && rows[i].email == email
}

/// `rows` with the row carrying `id` (if any) removed.
pub open spec fn without_id(rows: Seq<UserV>, id: int) -> Seq<UserV> {
    if has_id(rows, id) {
        rows.remove(idx_of_id(rows, id))
    } else {
        rows
    }
}

/// The capability set of a users-table backend: create, update, find and
/// delete, with the semantics the contracts below fix once for every
/// implementation. [`UsersTable`] implements it; a different storage backend
/// can be substituted without dynamic dispatch.
pub trait CRUD: Sized {
    /// The stored rows as mathematical values, in insertion order.
    spec fn rows_view(&self) -> Seq<UserV>;

    /// The id the next successful insert will hand out.
    spec fn next_id_view(&self) -> int;

    /// The backend's invariant; every operation preserves it.
    open spec fn wf(&self) -> bool {
        table_wf(self.rows_view(), self.next_id_view())
    }

    /// An empty backend; the first insert will hand out id 1.
    fn new() -> (t: Self)
        ensures
            t.rows_view() == Seq::<UserV>::empty(),
            t.next_id_view() == 1,
            t.wf(),
    ;

    /// Inserts a row. Succeeds, with the generated id, exactly when no row
    /// carries `email` yet; the new row is appended. Otherwise the
    /// unique-email constraint rejects the insert and nothing changes.
    fn create_user(&mut self, username: &str, email: &str) -> (r: Result<i64, DbError>)
        requires
            old(self).wf(),
            old(self).next_id_view() < i64::MAX,
        ensures
            final(self).wf(),
            match r {
                Ok(id) => {
                    &&& !has_email(old(self).rows_view(), email@)
                    &&& id as int == old(self).next_id_view()
                    &&& final(self).rows_view() == old(self).rows_view().push(
                        UserV { id: id as int, username: username@, email: email@ },
                    )
                    &&& final(self).next_id_view() == old(self).next_id_view() + 1
                },
                Err(e) => {
                    &&& has_email(old(self).rows_view(), email@)
                    &&& e == DbError::Datastore(QueryError::UniqueViolation)
                    &&& final(self).rows_view() == old(self).rows_view()
                    &&& final(self).next_id_view() == old(self).next_id_view()
                },
            },
    ;

    /// Updates at most one field of the row carrying `id`: when a username is
    /// supplied it is applied and a supplied email is ignored (first match
    /// wins); with only an email supplied the email is applied, unless the
    /// unique-email constraint rejects it; with neither, the call itself is
    /// in error. An update whose id matches no row succeeds silently.
    fn update_user(&mut self, id: i64, username: Option<&str>, email: Option<&str>) -> (r: Result<
        (),
        DbError,
    >)
        requires
            old(self).wf(),
        ensures
            final(self).wf(),
            final(self).next_id_view() == old(self).next_id_view(),
            match (username, email) {
                (Some(u), _) => r == Ok::<(), DbError>(()) && final(self).rows_view()
                    == with_username(old(self).rows_view(), id as int, u@),
                (None, Some(e)) => {
                    if email_conflict(old(self).rows_view(), id as int, e@) {
                        r == Err::<(), DbError>(DbError::Datastore(QueryError::UniqueViolation))
                            && final(self).rows_view() == old(self).rows_view()
                    } else {
                        r == Ok::<(), DbError>(()) && final(self).rows_view() == with_email(
                            old(self).rows_view(),
                            id as int,
                            e@,
                        )
                    }
                },
                (None, None) => r == Err::<(), DbError>(DbError::Validation(MyError::NoFieldsSet))
                    && final(self).rows_view() == old(self).rows_view(),
            },
    ;

    /// Looks a row up, by id when one is given, else by email when one is
    /// given. Exactly-one-row semantics: no matching row is an error, as is
    /// giving no field at all.
    fn find_user(&self, id: Option<i64>, email: Option<&str>) -> (r: Result<User, DbError>)
        requires
            self.wf(),
        ensures
            match (id, email) {
                (Some(i), _) => {
                    if has_id(self.rows_view(), i as int) {
                        r is Ok && r->Ok_0@ == user_with_id(self.rows_view(), i as int)
                    } else {
                        r == Err::<User, DbError>(DbError::Datastore(QueryError::NotFound))
                    }
                },
                (None, Some(e)) => {
                    if has_email(self.rows_view(), e@) {
                        r is Ok && r->Ok_0@ == user_with_email(self.rows_view(), e@)
                    } else {
                        r == Err::<User, DbError>(DbError::Datastore(QueryError::NotFound))
                    }
                },
                (None, None) => r == Err::<User, DbError>(
                    DbError::Validation(MyError::NoFieldsSet),
                ),
            },
    ;

    /// Deletes the row carrying `id`. A delete that matches no row is not
    /// distinguished from one that does: both succeed.
    fn delete_user(&mut self, id: i64) -> (r: Result<(), DbError>)
        requires
            old(self).wf(),
        ensures
            final(self).wf(),
            r == Ok::<(), DbError>(()),
            final(self).next_id_view() == old(self).next_id_view(),
            final(self).rows_view() == without_id(old(self).rows_view(), id as int),
            !has_id(final(self).rows_view(), id as int),
    ;
}

/// The users table, with the rows in insertion order and the next id to be
/// generated for an insert.
pub struct UsersTable {
    rows: Vec<User>,
    next_id: i64,
}

impl CRUD for UsersTable {
    closed spec fn rows_view(&self) -> Seq<UserV> {
        self.rows@.map_values(|u: User| u@)
    }

    closed spec fn next_id_view(&self) -> int {
        self.next_id as int
    }

    fn new() -> (t: Self) {
        let t = UsersTable { rows: Vec::new(), next_id: 1 };
        proof {
            assert(t.rows_view() =~= Seq::<UserV>::empty());
        }
        t
    }

    fn create_user(&mut self, username: &str, email: &str) -> (r: Result<i64, DbError>) {
        if self.email_taken(email, None) {
            return Err(DbError::Datastore(QueryError::UniqueViolation));
        }
        let id = self.next_id;
        let row = User { id, username: username.to_string(), email: email.to_string() };
        let ghost old_view = self.rows_view();
        self.rows.push(row);
        self.next_id = id + 1;
        proof {
            assert(self.rows_view() =~= old_view.push(
                UserV { id: id as int, username: username@, email: email@ },
            ));
        }
        Ok(id)
    }

    fn update_user(&mut self, id: i64, username: Option<&str>, email: Option<&str>) -> (r: Result<
        (),
        DbError,
    >) {
        let ghost old_view = self.rows_view();
        let ghost next0 = self.next_id_view();
        if let Some(u) = username {
            match self.position_of_id(id) {
                Some(j) => {
                    let ghost rows0 = self.rows@;
                    let row = self.rows.remove(j);
                    let new_row = User { id: row.id, username: u.to_string(), email: row.email };
                    self.rows.insert(j, new_row);
                    proof {
                        lemma_remove_insert(rows0, j as int, new_row);
                        assert forall|i: int| 0 <= i < old_view.len() implies self.rows_view()[i]
                            == with_username(old_view, id as int, u@)[i] by {
                            if i != j {
                                if i < j {
                                    assert(old_view[i].id != old_view[j as int].id);
                                } else {
                                    assert(old_view[j as int].id != old_view[i].id);
                                }
                                assert(self.rows@[i] == rows0[i]);
                            }
                        }
                        assert(self.rows_view() =~= with_username(old_view, id as int, u@));
                        lemma_with_username_wf(old_view, next0, id as int, u@);
                    }
                    Ok(())
                },
                None => {
                    proof {
                        assert forall|i: int| 0 <= i < old_view.len() implies with_username(
                            old_view,
                            id as int,
                            u@,
                        )[i] == old_view[i] by {
                            if old_view[i].id == id as int {
                                assert(has_id(old_view, id as int));
                            }
                        }
                        assert(self.rows_view() =~= with_username(old_view, id as int, u@));
                    }
                    Ok(())
                },
            }
        } else if let Some(e) = email {
            match self.position_of_id(id) {
                Some(j) => {
                    if self.email_taken(e, Some(id)) {
                        proof {
                            assert(has_id(old_view, id as int));
                        }
                        return Err(DbError::Datastore(QueryError::UniqueViolation));
                    }
                    let ghost rows0 = self.rows@;
                    let row = self.rows.remove(j);
                    let new_row = User { id: row.id, username: row.username, email: e.to_string() };
                    self.rows.insert(j, new_row);
                    proof {
                        lemma_remove_insert(rows0, j as int, new_row);
                        assert forall|i: int| 0 <= i < old_view.len() implies self.rows_view()[i]
                            == with_email(old_view, id as int, e@)[i] by {
                            if i != j {
                                if i < j {
                                    assert(old_view[i].id != old_view[j as int].id);
                                } else {
                                    assert(old_view[j as int].id != old_view[i].id);
                                }
                                assert(self.rows@[i] == rows0[i]);
                            }
                        }
                        assert(self.rows_view() =~= with_email(old_view, id as int, e@));
                        lemma_with_email_wf(old_view, next0, id as int, e@);
                    }
                    Ok(())
                },
                None => {
                    proof {
                        assert forall|i: int| 0 <= i < old_view.len() implies with_email(
                            old_view,
                            id as int,
                            e@,
                        )[i] == old_view[i] by {
                            if old_view[i].id == id as int {
                                assert(has_id(old_view, id as int));
                            }
                        }
                        assert(self.rows_view() =~= with_email(old_view, id as int, e@));
                    }
                    Ok(())
                },
            }
        } else {
            Err(DbError::Validation(MyError::NoFieldsSet))
        }
    }

    fn find_user(&self, id: Option<i64>, email: Option<&str>) -> (r: Result<User, DbError>) {
        if let Some(i) = id {
            match self.position_of_id(i) {
                Some(j) => {
                    proof {
                        lemma_user_with_id_is(self.rows_view(), i as int, j as int);
                    }
                    Ok(self.rows[j].duplicate())
                },
                None => Err(DbError::Datastore(QueryError::NotFound)),
            }
        } else if let Some(e) = email {
            match self.position_of_email(e) {
                Some(j) => {
                    proof {
                        lemma_user_with_email_is(self.rows_view(), e@, j as int);
                    }
                    Ok(self.rows[j].duplicate())
                },
                None => Err(DbError::Datastore(QueryError::NotFound)),
            }
        } else {
            Err(DbError::Validation(MyError::NoFieldsSet))
        }
    }

    fn delete_user(&mut self, id: i64) -> (r: Result<(), DbError>) {
        let ghost old_view = self.rows_view();
        match self.position_of_id(id) {
            Some(j) => {
                proof {
                    lemma_user_with_id_is(old_view, id as int, j as int);
                }
                self.rows.remove(j);
                proof {
                    old_view.remove_ensures(j as int);
                    assert(self.rows_view() =~= old_view.remove(j as int));
                    assert forall|i: int|
                        0 <= i < self.rows_view().len() implies #[trigger] self.rows_view()[i].id
                        != id as int by {
                        if i < j {
                            assert(self.rows_view()[i] == old_view[i]);
                        } else {
                            assert(self.rows_view()[i] == old_view[i + 1]);
                        }
                    }
                    assert(without_id(old_view, id as int) == old_view.remove(j as int));
                }
                Ok(())
            },
            None => Ok(()),
        }
    }
}

impl UsersTable {
    /// The position of the row carrying `id`, if any.
    fn position_of_id(&self, id: i64) -> (r: Option<usize>)
        ensures
            match r {
                Some(j) => j < self.rows_view().len() && self.rows_view()[j as int].id
                    == id as int,
                None => !has_id(self.rows_view(), id as int),
            },
    {
        let n = self.rows.len();
        let mut i: usize = 0;
        while i < n
            invariant
                n == self.rows.len(),
                i <= n,
                self.rows_view().len() == n,
                forall|j: int| 0 <= j < n ==> self.rows_view()[j] == self.rows@[j]@,
                forall|j: int| 0 <= j < i ==> self.rows_view()[j].id != id as int,
            decreases n - i,
        {
            if self.rows[i].id == id {
                return Some(i);
            }
            i += 1;
        }
        None
    }

    /// The position of the row carrying `email`, if any.
    fn position_of_email(&self, email: &str) -> (r: Option<usize>)
        ensures
            match r {
                Some(j) => j < self.rows_view().len() && self.rows_view()[j as int].email
                    == email@,
                None => !has_email(self.rows_view(), email@),
            },
    {
        let n = self.rows.len();
        let mut i: usize = 0;
        while i < n
            invariant
                n == self.rows.len(),
                i <= n,
                self.rows_view().len() == n,
                forall|j: int| 0 <= j < n ==> self.rows_view()[j] == self.rows@[j]@,
                forall|j: int| 0 <= j < i ==> self.rows_view()[j].email != email@,
            decreases n - i,
        {
            if str_eq(self.rows[i].email.as_str(), email) {
                return Some(i);
            }
            i += 1;
        }
        None
    }

    /// Whether some row carries `email`; a row carrying the excluded id, if
    /// one is given, does not count.
    fn email_taken(&self, email: &str, exclude_id: Option<i64>) -> (r: bool)
        ensures
            match exclude_id {
                None => r == has_email(self.rows_view(), email@),
                Some(x) => r == exists|i: int|
                    0 <= i < self.rows_view().len() && self.rows_view()[i].id != x
                        && self.rows_view()[i].email == email@,
            },
    {
        let n = self.rows.len();
        let mut i: usize = 0;
        while i < n
            invariant
                n == self.rows.len(),
                i <= n,
                self.rows_view().len() == n,
                forall|j: int| 0 <= j < n ==> self.rows_view()[j] == self.rows@[j]@,
                forall|j: int|
                    0 <= j < i ==> !(self.rows_view()[j].email == email@ && (match exclude_id {
                        None => true,
                        Some(x) => self.rows_view()[j].id != x,
                    })),
            decreases n - i,
        {
            let excluded = match exclude_id {
                Some(x) => self.rows[i].id == x,
                None => false,
            };
            if !excluded && str_eq(self.rows[i].email.as_str(), email) {
                proof {
                    let iw = i as int;
                    assert(self.rows_view()[iw] == self.rows@[iw]@);
                    assert(self.rows_view()[iw].email == email@);
                }
                return true;
            }
            i += 1;
        }
        false
    }
}

/// Removing the element at `j` and inserting `x` in its place replaces
/// position `j` and leaves every other position as it was.
proof fn lemma_remove_insert<A>(s: Seq<A>, j: int, x: A)
    requires
        0 <= j < s.len(),
    ensures
        s.remove(j).insert(j, x).len() == s.len(),
        s.remove(j).insert(j, x)[j] == x,
        forall|i: int|
            0 <= i < s.len() && i != j ==> #[trigger] s.remove(j).insert(j, x)[i] == s[i],
{
    s.remove_ensures(j);
    s.remove(j).insert_ensures(j, x);
    assert forall|i: int| 0 <= i < s.len() && i != j implies #[trigger] s.remove(j).insert(
        j,
        x,
    )[i] == s[i] by {
        if j < i {
            assert(s.remove(j).insert(j, x)[(i - 1) + 1] == s.remove(j)[i - 1]);
            assert(s.remove(j)[i - 1] == s[(i - 1) + 1]);
        }
    }
}

/// A username update keeps the invariant: ids and emails are untouched.
proof fn lemma_with_username_wf(rows: Seq<UserV>, next_id: int, id: int, u: Seq<char>)
    requires
        table_wf(rows, next_id),
    ensures
        table_wf(with_username(rows, id, u), next_id),
{
    let r2 = with_username(rows, id, u);
    assert forall|i: int| 0 <= i < r2.len() implies #[trigger] r2[i].id == rows[i].id && r2[i].email
        == rows[i].email by {}
}

/// An email update that raises no conflict keeps the invariant.
proof fn lemma_with_email_wf(rows: Seq<UserV>, next_id: int, id: int, e: Seq<char>)
    requires
        table_wf(rows, next_id),
        !email_conflict(rows, id, e),
    ensures
        table_wf(with_email(rows, id, e), next_id),
{
    let r2 = with_email(rows, id, e);
    assert forall|i: int| 0 <= i < r2.len() implies #[trigger] r2[i].id == rows[i].id by {}
    assert forall|i: int, j: int| 0 <= i < j < r2.len() implies r2[i].email != r2[j].email by {
        if rows[i].id == id && rows[j].id == id {
            assert(rows[i].id != rows[j].id);
        } else if rows[i].id == id {
            assert(has_id(rows, id));
            assert(rows[j].id != id && rows[j].email == e ==> email_conflict(rows, id, e));
        } else if rows[j].id == id {
            assert(has_id(rows, id));
            assert(rows[i].id != id && rows[i].email == e ==> email_conflict(rows, id, e));
        }
    }
}

/// With distinct ids, the row `user_with_id` denotes is the row at any
/// position whose id matches.
pub proof fn lemma_user_with_id_is(rows: Seq<UserV>, id: int, j: int)
    requires
        ids_distinct(rows),
        0 <= j < rows.len(),
        rows[j].id == id,
    ensures
        has_id(rows, id),
        idx_of_id(rows, id) == j,
        user_with_id(rows, id) == rows[j],
{
    assert(has_id(rows, id));
    let k = idx_of_id(rows, id);
    assert(0 <= k < rows.len() && rows[k].id == id);
    if k < j {
        assert(rows[k].id != rows[j].id);
    } else if j < k {
        assert(rows[j].id != rows[k].id);
    }
}

/// With distinct emails, the row `user_with_email` denotes is the row at any
/// position whose email matches.
pub proof fn lemma_user_with_email_is(rows: Seq<UserV>, email: Seq<char>, j: int)
    requires
        emails_distinct(rows),
        0 <= j < rows.len(),
        rows[j].email == email,
    ensures
        has_email(rows, email),
        idx_of_email(rows, email) == j,
        user_with_email(rows, email) == rows[j],
{
    assert(has_email(rows, email));
    let k = idx_of_email(rows, email);
    assert(0 <= k < rows.len() && rows[k].email == email);
    if k < j {
        assert(rows[k].email != rows[j].email);
    } else if j < k {
        assert(rows[j].email != rows[k].email);
    }
}

/// Character-by-character string equality.
pub fn str_eq(a: &str, b: &str) -> (r: bool)
    ensures
        r == (a@ == b@),
{
    let n: usize = a.unicode_len();
    let m: usize = b.unicode_len();
    if n != m {
        return false;
    }
    let mut i: usize = 0;
    while i < n
        invariant
            n == a@.len(),
            n == b@.len(),
            i <= n,
            forall|j: int| 0 <= j < i ==> a@[j] == b@[j],
        decreases n - i,
    {
        if a.get_char(i) != b.get_char(i) {
            return false;
        }
        i += 1;
    }
    proof {
        assert(a@ =~= b@);
    }
    true
}

} // verus!
