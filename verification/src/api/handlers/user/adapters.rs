//! Turning a stored user into the body the user endpoint replies with.
use vstd::prelude::*;
use crate::api::handlers::user::CreateUserResponse;
use crate::domain::users::ActiveModel;

verus! {

/// The reply to a created user, from the row the database gave back. Its id,
/// user name and password must be known.
pub fn to_create_user_response(user: ActiveModel) -> (r: CreateUserResponse)
    requires
        user.id.is_known(),
        user.username.is_known(),
        user.password.is_known(),
    ensures
        r.id == user.id.known(),
        r.user_name == user.username.known(),
        r.password == user.password.known(),
{
    CreateUserResponse {
        id: user.id.unwrap(),
        user_name: user.username.unwrap(),
        password: user.password.unwrap(),
    }
}

} // verus!
