use vstd::prelude::*;

use crate::interfaces::Model;

verus! {

/// The mathematical value of a user account: the id together with the two
/// text fields.
pub struct UserView {
    pub id: u128,
    pub username: Seq<char>,
    pub email: Seq<char>,
}

/// A user account.
///
/// The id is a 128-bit time-ordered identifier assigned by the service when
/// the create command is executed, never at enqueue time, and it is immutable
/// afterwards: no update or delete operation exists in this core.
pub struct User {
    pub id: u128,
    pub username: String,
    pub email: String,
}

impl Model for User {

}

impl View for User {
    type V = UserView;

    open spec fn view(&self) -> UserView {
        UserView { id: self.id, username: self.username@, email: self.email@ }
    }
}

impl User {
    /// An owned copy with the same id and the same text fields.
    pub fn duplicate(&self) -> (r: User)
        ensures
            r@ == self@,
    {
        User { id: self.id, username: self.username.clone(), email: self.email.clone() }
    }
}

} // verus!
