use task_api::infra::error::{AppError, HttpReply};

#[test]
fn not_found_is_answered_with_404_and_its_message() {
    let e = AppError::NotFound("Task with id 55 not found".to_owned());
    assert_eq!(e.status_code(), 404);
    assert_eq!(e.into_response(), HttpReply { status: 404, body: "Task with id 55 not found".to_owned() });
}

#[test]
fn internal_error_is_answered_with_500_and_a_lead_in() {
    let e = AppError::InternalError("disk full".to_owned());
    assert_eq!(e.status_code(), 500);
    assert_eq!(
        e.into_response(),
        HttpReply { status: 500, body: "An internal error occurred: disk full".to_owned() }
    );
}

#[test]
fn bad_request_is_answered_with_400_and_its_message() {
    let e = AppError::BadRequest("Priority is required".to_owned());
    assert_eq!(e.status_code(), 400);
    assert_eq!(e.into_response(), HttpReply { status: 400, body: "Priority is required".to_owned() });
}

#[test]
fn error_descriptions() {
    assert_eq!(AppError::NotFound("x".to_owned()).to_string(), "Not Found");
    assert_eq!(AppError::InternalError("x".to_owned()).to_string(), "Internal Server Error: x");
    assert_eq!(AppError::BadRequest("y".to_owned()).to_string(), "Bad Request: y");
}

#[test]
fn database_failure_is_an_internal_error() {
    let e = AppError::database_failure("connection refused".to_owned());
    assert_eq!(e, AppError::InternalError("connection refused".to_owned()));
    assert_eq!(e.into_response().body, "An internal error occurred: connection refused");
}
