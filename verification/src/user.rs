//! Users: people who own accounts and authenticate. Credentials never live
//! on this type.

use vstd::prelude::*;
use crate::text::owned;

verus! {

/// Domain user: identifier and unique public username.
#[derive(Debug, Clone, PartialEq, Eq)]
pub struct User {
    /// Stable user identifier (128-bit UUID value).
    pub id: u128,
    /// Unique public username.
    pub username: String,
}

impl User {
    /// Creates a user with the given id and username.
    pub fn new(id: u128, username: &str) -> (r: User)
        ensures
            r.id == id,
            r.username@ == username@,
    {
        User { id, username: owned(username) }
    }
}

} // verus!
