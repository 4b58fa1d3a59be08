//! The users that a lookup task sends back.

use vstd::prelude::*;
use crate::text::{ascii_upper_seq, to_ascii_uppercase};

verus! {

/// A user as the lookup finds it.
#[derive(Debug)]
pub struct User {
    pub id: String,
    pub name: String,
}

/// The user that a lookup of `user_id` finds: the id itself, named by the id
/// in ASCII upper case.
pub fn user_for(user_id: &str) -> (user: User)
    ensures
        user.id@ == user_id@,
        user.name@ == ascii_upper_seq(user_id@),
{
    User { id: user_id.to_string(), name: to_ascii_uppercase(user_id) }
}

} // verus!
