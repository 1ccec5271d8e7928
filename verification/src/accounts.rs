//! User records.

use vstd::prelude::*;

verus! {

/// A user of the system.
#[derive(Debug)]
pub struct User {
    pub active: bool,
    pub username: String,
    pub email: String,
    pub sign_in_count: u64,
}

/// Whether `user` is the record of a user who has just signed up under
/// `username` and `email`: active, and signed in once.
pub open spec fn is_new_user(user: User, email: Seq<char>, username: Seq<char>) -> bool {
    &&& user.email@ == email
    &&& user.username@ == username
    &&& user.active
    &&& user.sign_in_count == 1
}

/// The record of a user who has just signed up.
pub fn build_user(email: String, username: String) -> (user: User)
    ensures
        is_new_user(user, email@, username@),
        user.email == email,
        user.username == username,
{
    User { email: email, username: username, active: true, sign_in_count: 1 }
}

/// The record of a user who has just signed up. The same as
/// [`build_user`], written with the fields named by the parameters.
pub fn build_user_with_field_init_shorthand(email: String, username: String) -> (user: User)
    ensures
        is_new_user(user, email@, username@),
        user.email == email,
        user.username == username,
{
    User { email, username, active: true, sign_in_count: 1 }
}

} // verus!
