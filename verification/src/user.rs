//! The user record: an aggregate of two owned strings, a sign-in
//! counter and an active flag, created by `build_user` and mutated
//! field by field afterwards.

use vstd::prelude::*;

verus! {

/// The mathematical value of a [`User`]: its fields as sequences of
/// characters and plain scalars.
pub ghost struct UserView {
    pub username: Seq<char>,
    pub email: Seq<char>,
    pub sign_in_count: u64,
    pub active: bool,
}

/// A record with named fields. No invariant is imposed beyond the
/// field types; any strings are accepted.
pub struct User {
    pub username: String,
    pub email: String,
    pub sign_in_count: u64,
    pub active: bool,
}

impl View for User {
    type V = UserView;

    open spec fn view(&self) -> UserView {
        UserView {
            username: self.username@,
            email: self.email@,
            sign_in_count: self.sign_in_count,
            active: self.active,
        }
    }
}

/// What `build_user` returns, as a function of the two input strings.
pub open spec fn built_user(email: Seq<char>, username: Seq<char>) -> UserView {
    UserView { username, email, sign_in_count: 1, active: true }
}

/// A record with its `email` field overwritten and the rest unchanged.
pub open spec fn with_email(u: UserView, v: Seq<char>) -> UserView {
    UserView { email: v, ..u }
}

/// Takes ownership of both strings and returns a fully initialized
/// record: the two fields come from the arguments, the counter starts
/// at 1 and the flag starts true.
pub fn build_user(email: String, username: String) -> (user: User)
    ensures
        user@ == built_user(email@, username@),
        user@.email == email@,
        user@.username == username@,
        user@.sign_in_count == 1,
        user@.active,
{
    User { email, username, active: true, sign_in_count: 1 }
}

impl User {
    /// Overwrites the `email` field with `v`, releasing the previous
    /// value; every other field keeps its value.
    pub fn set_email(&mut self, v: String)
        ensures
            final(self)@ == with_email(old(self)@, v@),
            final(self)@.email == v@,
            final(self)@.username == old(self)@.username,
            final(self)@.sign_in_count == old(self)@.sign_in_count,
            final(self)@.active == old(self)@.active,
    {
        self.email = v;
    }
}

/// Overwriting the email of a freshly built record leaves exactly the
/// new value in that field and every other field as the constructor
/// set it.
pub proof fn lemma_email_after_overwrite(e: Seq<char>, u: Seq<char>, v: Seq<char>)
    ensures
        with_email(built_user(e, u), v).email == v,
        with_email(built_user(e, u), v).username == u,
        with_email(built_user(e, u), v).sign_in_count == 1,
        with_email(built_user(e, u), v).active,
{
}

} // verus!
