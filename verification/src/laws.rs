//! General properties of the table semantics, stated over the same spec
//! functions the operation contracts use and proved once and for all.

use vstd::prelude::*;

use crate::table::{
    has_email, has_id, idx_of_id, ids_distinct, lemma_user_with_id_is, table_wf, user_with_id,
    with_username, without_id,
};
use crate::user::UserV;

verus! {

/// Creating a user and then finding the returned id yields the created
/// record. A successful insert appends the row with the generated id, and in
/// the new table that id is present and denotes exactly that row, so a find
/// by it returns a record with the given username and email.
pub proof fn create_then_find(
    rows: Seq<UserV>,
    next_id: int,
    username: Seq<char>,
    email: Seq<char>,
)
    requires
        table_wf(rows, next_id),
    ensures
        has_id(rows.push(UserV { id: next_id, username, email }), next_id),
        user_with_id(rows.push(UserV { id: next_id, username, email }), next_id) == (UserV {
            id: next_id,
            username,
            email,
        }),
{
    let u = UserV { id: next_id, username, email };
    let rows2 = rows.push(u);
    let n = rows.len() as int;
    assert(rows2[n] == u);
    assert forall|a: int, b: int| 0 <= a < b < rows2.len() implies rows2[a].id != rows2[b].id by {
        if b < n {
            assert(rows[a].id != rows[b].id);
        } else {
            assert(rows2[a] == rows[a]);
            assert(rows[a].id < next_id);
        }
    }
    lemma_user_with_id_is(rows2, next_id, n);
}

/// Creating two users with the same email fails the second time: once a row
/// with the email is in the table, the email is present, and an insert of a
/// present email is rejected by `create_user`'s contract.
pub proof fn duplicate_email_present(
    rows: Seq<UserV>,
    id: int,
    username: Seq<char>,
    email: Seq<char>,
)
    ensures
        has_email(rows.push(UserV { id, username, email }), email),
{
    let rows2 = rows.push(UserV { id, username, email });
    assert(rows2[rows.len() as int].email == email);
}

/// A username update touches no stored email: every row of the updated table
/// carries the email (and the id) it carried before.
pub proof fn update_username_keeps_emails(rows: Seq<UserV>, id: int, username: Seq<char>)
    ensures
        with_username(rows, id, username).len() == rows.len(),
        forall|i: int|
            0 <= i < rows.len() ==> #[trigger] with_username(rows, id, username)[i].email
                == rows[i].email,
        forall|i: int|
            0 <= i < rows.len() ==> #[trigger] with_username(rows, id, username)[i].id
                == rows[i].id,
{
}

/// A username update applies exactly the username change to the addressed
/// row: afterwards that row carries the new username and its old email.
pub proof fn update_username_applies(rows: Seq<UserV>, id: int, username: Seq<char>)
    requires
        ids_distinct(rows),
        has_id(rows, id),
    ensures
        has_id(with_username(rows, id, username), id),
        user_with_id(with_username(rows, id, username), id).username == username,
        user_with_id(with_username(rows, id, username), id).email == user_with_id(
            rows,
            id,
        ).email,
{
    let j = idx_of_id(rows, id);
    assert(0 <= j < rows.len() && rows[j].id == id);
    let rows2 = with_username(rows, id, username);
    assert forall|a: int, b: int| 0 <= a < b < rows2.len() implies rows2[a].id != rows2[b].id by {
        assert(rows2[a].id == rows[a].id);
        assert(rows2[b].id == rows[b].id);
    }
    lemma_user_with_id_is(rows, id, j);
    lemma_user_with_id_is(rows2, id, j);
}

/// After a delete no row carries the deleted id, whether or not one did
/// before: a subsequent find by that id reports not-found.
pub proof fn delete_then_find(rows: Seq<UserV>, id: int)
    requires
        ids_distinct(rows),
    ensures
        !has_id(without_id(rows, id), id),
{
    if has_id(rows, id) {
        let j = idx_of_id(rows, id);
        assert(0 <= j < rows.len() && rows[j].id == id);
        rows.remove_ensures(j);
        let rows2 = rows.remove(j);
        assert forall|i: int| 0 <= i < rows2.len() implies #[trigger] rows2[i].id != id by {
            if i < j {
                assert(rows2[i] == rows[i]);
                assert(rows[i].id != rows[j].id);
            } else {
                assert(rows2[i] == rows[i + 1]);
                assert(rows[j].id != rows[i + 1].id);
            }
        }
    }
}

} // verus!
