//! The user credentials the authenticator is built from, loaded by the
//! calling layer from the secrets file.
use vstd::prelude::*;

verus! {

/// The configured users.
#[derive(Debug)]
pub struct Users {
    pub users: Vec<User>,
}

/// One configured user.
#[derive(Debug)]
pub struct User {
    pub username: String,
    pub password: String,
}

} // verus!
