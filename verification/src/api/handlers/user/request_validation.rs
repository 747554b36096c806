//! The rules a user body must meet.
use vstd::prelude::*;
use crate::api::handlers::user::CreateUserRequest;
use crate::infra::error::AppError;
use crate::text::{filled, is_filled};
use vstd::string::*;

verus! {

/// The message of the error for a body without a user name.
pub open spec fn name_required() -> Seq<char> {
    "Name is required"@
}

/// The message of the error for a body without a password.
pub open spec fn password_required() -> Seq<char> {
    "Password is required"@
}

/// A user body is accepted exactly when it gives a user name and a password,
/// neither empty. A missing name is reported first; a body with a name and no
/// password is reported as missing its password.
pub fn validate_request(req: &CreateUserRequest) -> (r: Result<(), AppError>)
    ensures
        r is Ok <==> filled(req.user_name) && filled(req.password),
        !filled(req.user_name) ==> (r matches Err(AppError::BadRequest(m)) && m@ == name_required()),
        filled(req.user_name) && !filled(req.password) ==> (r matches Err(AppError::BadRequest(m))
            && m@ == password_required()),
{
    if !is_filled(&req.user_name) {
        return Err(AppError::BadRequest(String::from_str("Name is required")));
    }
    if !is_filled(&req.password) {
        return Err(AppError::BadRequest(String::from_str("Password is required")));
    }
    Ok(())
}

} // verus!
