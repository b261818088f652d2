use vstd::prelude::*;

use crate::interfaces::Event;
use crate::models::{User, UserView};

verus! {

/// The immutable record that a user was created: produced one to one with
/// each successfully persisted user and carrying the same id, username and
/// email, so the fact survives independently of current-state storage.
pub struct UserCreated {
    pub id: u128,
    pub username: String,
    pub email: String,
}

impl View for UserCreated {
    type V = UserView;

    open spec fn view(&self) -> UserView {
        UserView { id: self.id, username: self.username@, email: self.email@ }
    }
}

impl Event for UserCreated {

}

impl UserCreated {
    /// The event matching a persisted user: a snapshot of its three fields.
    pub fn of_user(user: &User) -> (r: UserCreated)
        ensures
            r@ == user@,
    {
        UserCreated {
            id: user.id,
            username: user.username.clone(),
            email: user.email.clone(),
        }
    }

    /// An owned copy with the same value.
    pub fn duplicate(&self) -> (r: UserCreated)
        ensures
            r@ == self@,
    {
        UserCreated {
            id: self.id,
            username: self.username.clone(),
            email: self.email.clone(),
        }
    }
}

} // verus!
