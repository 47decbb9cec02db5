//! Account credentials.
use vstd::prelude::*;

verus! {

/// A user name and password.
#[derive(Debug)]
pub struct User {
    pub name: String,
    pub password: String,
}

impl User {
    /// A user with the given name and password.
    pub fn new(user_name: &str, password: &str) -> (u: User)
        ensures
            u.name@ == user_name@,
            u.password@ == password@,
    {
        User { name: user_name.to_string(), password: password.to_string() }
    }
}

} // verus!
