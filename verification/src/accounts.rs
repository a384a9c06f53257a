//! The accounts a server knows, held in memory in the order in which they
//! registered.

use vstd::prelude::*;
use crate::models::User;

verus! {

/// Two string slices are equal where they hold the same text.
pub assume_specification[ <str as PartialEq>::eq ](a: &str, b: &str) -> (equal: bool)
    ensures
        equal == (a@ == b@),
;

/// The registered accounts, oldest first.
pub struct UserDirectory {
    users: Vec<User>,
}

impl View for UserDirectory {
    type V = Seq<User>;

    closed spec fn view(&self) -> Seq<User> {
        self.users@
    }
}

/// Whether position `i` holds the first account in `users` with this email
/// address.
pub open spec fn is_first_with_email(users: Seq<User>, email: Seq<char>, i: int) -> bool {
    &&& 0 <= i < users.len()
    &&& users[i].email@ == email
    &&& forall|j: int| 0 <= j < i ==> users[j].email@ != email
}

/// Whether position `i` holds the first account in `users` with this
/// identifier.
pub open spec fn is_first_with_id(users: Seq<User>, id: Seq<char>, i: int) -> bool {
    &&& 0 <= i < users.len()
    &&& users[i].id@ == id
    &&& forall|j: int| 0 <= j < i ==> users[j].id@ != id
}

/// Whether some account in `users` has this email address.
pub open spec fn has_email(users: Seq<User>, email: Seq<char>) -> bool {
    exists|i: int| 0 <= i < users.len() && users[i].email@ == email
}

impl UserDirectory {
    /// A directory without accounts.
    pub fn new() -> (directory: UserDirectory)
        ensures
            directory@.len() == 0,
    {
        UserDirectory { users: Vec::new() }
    }

    /// How many accounts are registered.
    pub fn len(&self) -> (count: usize)
        ensures
            count == self@.len(),
    {
        self.users.len()
    }

    /// Whether an account with this email address is registered.
    pub fn email_taken(&self, email: &str) -> (taken: bool)
        ensures
            taken == has_email(self@, email@),
    {
        self.find_by_email(email).is_some()
    }

    /// The first account registered with this email address.
    pub fn find_by_email(&self, email: &str) -> (found: Option<&User>)
        ensures
            found is None ==> !has_email(self@, email@),
            found is Some ==> exists|i: int|
                is_first_with_email(self@, email@, i) && *found->Some_0 == self@[i],
    {
        let mut i: usize = 0;
        while i < self.users.len()
            invariant
                i <= self.users@.len(),
                forall|j: int| 0 <= j < i ==> self.users@[j].email@ != email@,
            decreases self.users@.len() - i,
        {
            if self.users[i].email.as_str().eq(email) {
                assert(is_first_with_email(self@, email@, i as int));
                return Some(&self.users[i]);
            }
            i += 1;
        }
        None
    }

    /// The first account registered under this identifier.
    pub fn find_by_id(&self, id: &str) -> (found: Option<&User>)
        ensures
            found is None ==> forall|i: int| 0 <= i < self@.len() ==> self@[i].id@ != id@,
            found is Some ==> exists|i: int|
                is_first_with_id(self@, id@, i) && *found->Some_0 == self@[i],
    {
        let mut i: usize = 0;
        while i < self.users.len()
            invariant
                i <= self.users@.len(),
                forall|j: int| 0 <= j < i ==> self.users@[j].id@ != id@,
            decreases self.users@.len() - i,
        {
            if self.users[i].id.as_str().eq(id) {
                assert(is_first_with_id(self@, id@, i as int));
                return Some(&self.users[i]);
            }
            i += 1;
        }
        None
    }

    /// Registers an account, after those that are there.
    pub fn add(&mut self, user: User)
        ensures
            final(self)@ == old(self)@.push(user),
    {
        self.users.push(user);
    }
}

} // verus!
