use vstd::prelude::*;

use crate::email::Email;
use crate::password::Password;

verus! {

/// A user as text: email, password, and whether a second factor is required.
pub type UserView = (Seq<char>, Seq<char>, bool);

/// A registered identity. Immutable once built.
#[derive(Debug)]
pub struct User {
    email: Email,
    password: Password,
    requires_2fa: bool,
}

impl View for User {
    type V = UserView;

    closed spec fn view(&self) -> UserView {
        (self.email@, self.password@, self.requires_2fa)
    }
}

impl User {
    pub fn new(email: Email, password: Password, requires_2fa: bool) -> (r: User)
        ensures
            r@ == (email@, password@, requires_2fa),
    {
        User { email, password, requires_2fa }
    }

    pub fn email(&self) -> (r: &Email)
        ensures
            r@ == self@.0,
    {
        &self.email
    }

    pub fn password(&self) -> (r: &Password)
        ensures
            r@ == self@.1,
    {
        &self.password
    }

    pub fn requires_2fa(&self) -> (r: bool)
        ensures
            r == self@.2,
    {
        self.requires_2fa
    }
}

impl Clone for User {
    fn clone(&self) -> (r: User)
        ensures
            r@ == self@,
    {
        User {
            email: self.email.clone(),
            password: self.password.clone(),
            requires_2fa: self.requires_2fa,
        }
    }
}

} // verus!
