//! The rule a task body must meet.
use vstd::prelude::*;
use crate::api::handlers::task::CreateTaskRequest;
use crate::infra::error::AppError;
use crate::text::{filled, is_filled};
use vstd::string::*;

verus! {

/// The message of the error for a body without a priority.
pub open spec fn priority_required() -> Seq<char> {
    "Priority is required"@
}

/// A task body is accepted exactly when it gives a priority that is not
/// empty; otherwise it is a bad request saying that the priority is required.
pub fn validate_request(req: &CreateTaskRequest) -> (r: Result<(), AppError>)
    ensures
        r is Ok <==> filled(req.priority),
        r matches Err(e) ==> e matches AppError::BadRequest(m) && m@ == priority_required(),
{
    if is_filled(&req.priority) {
        Ok(())
    } else {
        Err(AppError::BadRequest(String::from_str("Priority is required")))
    }
}

} // verus!
