use vstd::prelude::*;

use crate::data_stores::{UserMap, UserStore};
use crate::email::Email;
use crate::error::UserStoreError;
use crate::password::Password;
use crate::user::User;

verus! {

/// An in-memory user store. Each email appears at most once among the users.
pub struct HashmapUserStore {
    users: Vec<User>,
    model: Ghost<UserMap>,
}

impl HashmapUserStore {
    spec fn inv(&self) -> bool {
        &&& forall|i: int|
            0 <= i < self.users@.len() ==> self.model@.contains_key(#[trigger] self.users@[i]@.0)
                && self.model@[self.users@[i]@.0] == self.users@[i]@
        &&& forall|k: Seq<char>|
            #[trigger] self.model@.contains_key(k) ==> exists|i: int|
                0 <= i < self.users@.len() && (#[trigger] self.users@[i])@.0 == k
        &&& forall|i: int, j: int|
            0 <= i < j < self.users@.len() ==> (#[trigger] self.users@[i])@.0 != (
            #[trigger] self.users@[j])@.0
    }

    /// An empty store.
    pub fn new() -> (r: HashmapUserStore)
        ensures
            r.well_formed(),
            r.users() == Map::<Seq<char>, (Seq<char>, Seq<char>, bool)>::empty(),
    {
        HashmapUserStore { users: Vec::new(), model: Ghost(Map::empty()) }
    }

    /// The position of the user stored under `email`, if any.
    fn find(&self, email: &Email) -> (r: Option<usize>)
        requires
            self.inv(),
        ensures
            match r {
                Some(i) => i < self.users@.len() && self.users@[i as int]@.0 == email@
                    && self.users().contains_key(email@)
                    && self.users()[email@] == self.users@[i as int]@,
                None => !self.users().contains_key(email@),
            },
    {
        let mut i: usize = 0;
        while i < self.users.len()
            invariant
                self.inv(),
                0 <= i <= self.users@.len(),
                forall|j: int| 0 <= j < i ==> (#[trigger] self.users@[j])@.0 != email@,
            decreases self.users@.len() - i,
        {
            if self.users[i].email().eq(email) {
                return Some(i);
            }
            i = i + 1;
        }
        None
    }
}

impl Default for HashmapUserStore {
    fn default() -> (r: HashmapUserStore)
        ensures
            r.well_formed(),
            r.users() == Map::<Seq<char>, (Seq<char>, Seq<char>, bool)>::empty(),
    {
        HashmapUserStore::new()
    }
}

impl UserStore for HashmapUserStore {
    closed spec fn users(&self) -> UserMap {
        self.model@
    }

    closed spec fn well_formed(&self) -> bool {
        self.inv()
    }

    fn add_user(&mut self, user: User) -> (r: Result<(), UserStoreError>) {
        match self.find(user.email()) {
            Some(_) => Err(UserStoreError::UserAlreadyExists),
            None => {
                let ghost old_users = self.users@;
                let ghost old_model = self.model@;
                let ghost u = user@;
                self.model = Ghost(self.model@.insert(u.0, u));
                self.users.push(user);
                proof {
                    let n = old_users.len() as int;
                    assert(self.users@[n]@ == u);
                    assert forall|i: int| 0 <= i < n implies #[trigger] self.users@[i] == old_users[i] by {}
                    assert forall|i: int| 0 <= i < n implies old_users[i]@.0 != u.0 by {
                        assert(old_model.contains_key(old_users[i]@.0));
                    }
                    assert forall|k: Seq<char>| #[trigger] self.model@.contains_key(k) implies exists|i: int|
                        0 <= i < self.users@.len() && (#[trigger] self.users@[i])@.0 == k by {
                        if k == u.0 {
                            assert(self.users@[n]@.0 == k);
                        } else {
                            assert(old_model.contains_key(k));
                            let i = choose|i: int| 0 <= i < n && (#[trigger] old_users[i])@.0 == k;
                            assert(self.users@[i]@.0 == k);
                        }
                    }
                }
                Ok(())
            },
        }
    }

    fn get_user(&self, email: &Email) -> (r: Result<&User, UserStoreError>) {
        match self.find(email) {
            Some(i) => Ok(&self.users[i]),
            None => Err(UserStoreError::UserNotFound),
        }
    }

    fn validate_user(&self, email: &Email, password: &Password) -> (r: Result<(), UserStoreError>) {
        match self.find(email) {
            Some(i) => {
                if self.users[i].password().eq(password) {
                    Ok(())
                } else {
                    Err(UserStoreError::InvalidCredentials)
                }
            },
            None => Err(UserStoreError::UserNotFound),
        }
    }
}

} // verus!
