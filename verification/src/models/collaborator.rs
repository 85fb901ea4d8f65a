//! A user that may read or edit a dataset.

use vstd::prelude::*;

verus! {

/// A collaborator on a dataset: a username together with a role.
#[derive(Debug, Clone)]
pub struct Collaborator {
    /// Username of the collaborator
    pub username: String,
    /// Role of the collaborator
    pub role: String,
}

impl Collaborator {
    /// Build a collaborator from a username and a role.
    pub fn new(username: &str, role: &str) -> (r: Self)
        ensures
            r.username@ == username@,
            r.role@ == role@,
    {
        Self { username: username.to_owned(), role: role.to_owned() }
    }

    /// The collaborator's username.
    pub fn username(&self) -> (r: &str)
        ensures
            r@ == self.username@,
    {
        self.username.as_str()
    }

    /// The collaborator's role.
    pub fn role(&self) -> (r: &str)
        ensures
            r@ == self.role@,
    {
        self.role.as_str()
    }
}

} // verus!
