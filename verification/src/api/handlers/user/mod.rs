//! The bodies the user endpoint takes and gives.
pub mod adapters;
pub mod request_validation;

use vstd::prelude::*;

verus! {

/// The body of a request that creates a user.
#[derive(Debug, PartialEq, Eq)]
pub struct CreateUserRequest {
    pub user_name: Option<String>,
    pub token: Option<String>,
    pub password: Option<String>,
}

/// The reply to a created user.
#[derive(Debug, PartialEq, Eq)]
pub struct CreateUserResponse {
    pub id: i32,
    pub user_name: String,
    pub password: String,
}

} // verus!
