use task_api::api::handlers::task::request_validation::validate_request as validate_task;
use task_api::api::handlers::task::CreateTaskRequest;
use task_api::api::handlers::user::request_validation::validate_request as validate_user;
use task_api::api::handlers::user::CreateUserRequest;
use task_api::infra::error::AppError;

#[test]
fn task_with_priority_is_accepted() {
    let req = CreateTaskRequest {
        priority: Some("High".to_owned()),
        title: "Aprender Integração em Rust".to_owned(),
        description: Some("Finalizar os testes de POST".to_owned()),
    };
    assert_eq!(validate_task(&req), Ok(()));
}

#[test]
fn task_without_priority_is_a_bad_request() {
    let req = CreateTaskRequest {
        priority: None,
        title: "Aprender Integração em Rust".to_owned(),
        description: Some("Finalizar os testes de POST".to_owned()),
    };
    assert_eq!(
        validate_task(&req),
        Err(AppError::BadRequest("Priority is required".to_owned()))
    );
}

#[test]
fn task_with_empty_priority_is_a_bad_request() {
    let req = CreateTaskRequest { priority: Some(String::new()), title: "t".to_owned(), description: None };
    assert_eq!(
        validate_task(&req),
        Err(AppError::BadRequest("Priority is required".to_owned()))
    );
}

#[test]
fn user_with_name_and_password_is_accepted() {
    let req = CreateUserRequest {
        user_name: Some("john_doe".to_owned()),
        token: Some("some_token".to_owned()),
        password: Some("secret123".to_owned()),
    };
    assert_eq!(validate_user(&req), Ok(()));
}

#[test]
fn user_without_name_is_a_bad_request() {
    let req = CreateUserRequest { user_name: None, token: Some("some_token".to_owned()), password: None };
    assert_eq!(validate_user(&req), Err(AppError::BadRequest("Name is required".to_owned())));
}

#[test]
fn user_with_empty_name_is_a_bad_request() {
    let req = CreateUserRequest {
        user_name: Some(String::new()),
        token: None,
        password: Some("secret123".to_owned()),
    };
    assert_eq!(validate_user(&req), Err(AppError::BadRequest("Name is required".to_owned())));
}

#[test]
fn user_without_password_is_a_bad_request() {
    let req = CreateUserRequest {
        user_name: Some("john_doe".to_owned()),
        token: Some("some_token".to_owned()),
        password: None,
    };
    assert_eq!(
        validate_user(&req),
        Err(AppError::BadRequest("Password is required".to_owned()))
    );
}

#[test]
fn user_with_empty_password_is_a_bad_request() {
    let req = CreateUserRequest {
        user_name: Some("john_doe".to_owned()),
        token: None,
        password: Some(String::new()),
    };
    assert_eq!(
        validate_user(&req),
        Err(AppError::BadRequest("Password is required".to_owned()))
    );
}
