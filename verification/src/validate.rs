//! Shape-level validation of command arguments, in particular the email rule:
//! an email must contain an '@' and must not contain a space.

use vstd::prelude::*;

verus! {

/// True when some character of `s` equals `c`.
pub open spec fn has_char(s: Seq<char>, c: char) -> bool {
    exists|i: int| 0 <= i < s.len() && s[i] == c
}

/// The shape every accepted email argument has: at least one '@', no space.
pub open spec fn email_ok(s: Seq<char>) -> bool {
    has_char(s, '@') && !has_char(s, ' ')
}

/// Linear scan for a character.
pub fn contains_char(s: &str, c: char) -> (r: bool)
    ensures
        r == has_char(s@, c),
{
    let n: usize = s.unicode_len();
    let mut i: usize = 0;
    while i < n
        invariant
            n == s@.len(),
            i <= n,
            forall|j: int| 0 <= j < i ==> s@[j] != c,
        decreases n - i,
    {
        if s.get_char(i) == c {
            return true;
        }
        i += 1;
    }
    false
}

/// Rejects an email containing a space, accepts one containing '@', and
/// rejects the rest, with the front end's field-specific messages.
pub fn validate_email(email: &str) -> (r: Result<(), String>)
    ensures
        r is Ok <==> email_ok(email@),
        has_char(email@, ' ') ==> r is Err && r->Err_0@ == "email cannot contain spaces"@,
        !has_char(email@, ' ') && !has_char(email@, '@') ==> r is Err && r->Err_0@
            == "email is not valid"@,
{
    if contains_char(email, ' ') {
        Err("email cannot contain spaces".to_string())
    } else if contains_char(email, '@') {
        Ok(())
    } else {
        Err("email is not valid".to_string())
    }
}

} // verus!
