use vstd::prelude::*;

use crate::email::Email;
use crate::error::UserStoreError;
use crate::password::Password;
use crate::user::{User, UserView};

verus! {

/// The contents of a store: users keyed by the text of their email.
pub type UserMap = Map<Seq<char>, UserView>;

/// What `add_user` does to a store holding `users`: the new contents and the result.
pub open spec fn add_outcome(users: UserMap, user: UserView) -> (UserMap, Result<(), UserStoreError>) {
    if users.contains_key(user.0) {
        (users, Err(UserStoreError::UserAlreadyExists))
    } else {
        (users.insert(user.0, user), Ok(()))
    }
}

/// What `get_user` answers on a store holding `users`.
pub open spec fn get_outcome(users: UserMap, email: Seq<char>) -> Result<UserView, UserStoreError> {
    if users.contains_key(email) {
        Ok(users[email])
    } else {
        Err(UserStoreError::UserNotFound)
    }
}

/// What `validate_user` answers on a store holding `users`.
pub open spec fn validate_outcome(users: UserMap, email: Seq<char>, password: Seq<char>) -> Result<(), UserStoreError> {
    if !users.contains_key(email) {
        Err(UserStoreError::UserNotFound)
    } else if users[email].1 == password {
        Ok(())
    } else {
        Err(UserStoreError::InvalidCredentials)
    }
}

/// Storage of users, one per distinct email. Workflows depend on this
/// capability only, so the backend can be swapped.
pub trait UserStore {
    /// The users held, keyed by the text of their email.
    spec fn users(&self) -> UserMap;

    /// The store's internal invariant, which every operation keeps.
    spec fn well_formed(&self) -> bool;

    /// Inserts `user` under its email, unless that email is taken.
    fn add_user(&mut self, user: User) -> (r: Result<(), UserStoreError>)
        requires
            old(self).well_formed(),
        ensures
            final(self).well_formed(),
            (final(self).users(), r) == add_outcome(old(self).users(), user@),
    ;

    /// The user stored under `email`.
    fn get_user(&self, email: &Email) -> (r: Result<&User, UserStoreError>)
        requires
            self.well_formed(),
        ensures
            match r {
                Ok(u) => get_outcome(self.users(), email@) == Ok::<UserView, UserStoreError>(u@),
                Err(e) => get_outcome(self.users(), email@) == Err::<UserView, UserStoreError>(e),
            },
    ;

    /// Succeeds when a user is stored under `email` with exactly `password`.
    fn validate_user(&self, email: &Email, password: &Password) -> (r: Result<(), UserStoreError>)
        requires
            self.well_formed(),
        ensures
            r == validate_outcome(self.users(), email@, password@),
    ;
}

/// No user can be found in an empty store.
pub proof fn lemma_empty_store_has_no_user(email: Seq<char>)
    ensures
        get_outcome(Map::empty(), email) == Err::<UserView, UserStoreError>(UserStoreError::UserNotFound),
{
}

/// After adding a user, looking up its email gives that user back (unless a
/// different user already held the email, in which case the add was refused).
pub proof fn lemma_add_then_get(users: UserMap, user: UserView)
    requires
        !users.contains_key(user.0) || users[user.0] == user,
    ensures
        get_outcome(add_outcome(users, user).0, user.0) == Ok::<UserView, UserStoreError>(user),
{
}

/// Adding the same user twice: the second add fails with `UserAlreadyExists`
/// and leaves the store as the first add left it, with the email present.
pub proof fn lemma_add_twice(users: UserMap, user: UserView)
    ensures
        add_outcome(add_outcome(users, user).0, user).1 == Err::<(), UserStoreError>(UserStoreError::UserAlreadyExists),
        add_outcome(add_outcome(users, user).0, user).0 == add_outcome(users, user).0,
        add_outcome(users, user).0.contains_key(user.0),
{
}

/// Validation succeeds exactly when the email is present with that password;
/// otherwise it names which of the two failed.
pub proof fn lemma_validate_iff(users: UserMap, email: Seq<char>, password: Seq<char>)
    ensures
        validate_outcome(users, email, password) is Ok <==> (users.contains_key(email) && users[email].1 == password),
        !users.contains_key(email) ==> validate_outcome(users, email, password) == Err::<(), UserStoreError>(UserStoreError::UserNotFound),
        users.contains_key(email) && users[email].1 != password ==> validate_outcome(users, email, password) == Err::<(), UserStoreError>(UserStoreError::InvalidCredentials),
{
}

} // verus!
