//! The user row and the request bodies of the user endpoints.

use vstd::prelude::*;

verus! {

/// A stored user: the name and the PHC string of the password's hash.
#[derive(Debug, Clone, PartialEq, Eq)]
pub struct User {
    pub username: String,
    pub password_hash: String,
}

/// Body of a log-in request.
#[derive(Debug, Clone, PartialEq, Eq)]
pub struct LoginBody {
    pub username: String,
    pub password: String,
}

/// Body of a sign-up request.
#[derive(Debug, Clone, PartialEq, Eq)]
pub struct SignupBody {
    pub username: String,
    pub password: String,
}

} // verus!
