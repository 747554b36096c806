use task_api::api::{build_cors_layer, routes, Endpoint, HttpMethod};
use task_api::infra::http_server::{bind_address, SERVER_PORT};

#[test]
fn route_table() {
    let table: Vec<(HttpMethod, &str, Endpoint)> =
        routes().into_iter().map(|r| (r.method, r.path, r.endpoint)).collect();
    assert_eq!(
        table,
        vec![
            (HttpMethod::Post, "/task", Endpoint::CreateTask),
            (HttpMethod::Get, "/task", Endpoint::GetAllTasks),
            (HttpMethod::Get, "/task/{id}", Endpoint::GetById),
            (HttpMethod::Put, "/task/{id}", Endpoint::PutTask),
            (HttpMethod::Delete, "/task/hard/{id}", Endpoint::HardDeleteById),
            (HttpMethod::Delete, "/task/{id}", Endpoint::SoftDeleteById),
            (HttpMethod::Put, "/task/user/{user_id}/{task_id}", Endpoint::LinkUserToTask),
            (HttpMethod::Post, "/user", Endpoint::CreateUser),
        ]
    );
}

#[test]
fn cors_admits_get_and_post_from_anywhere() {
    let policy = build_cors_layer();
    assert_eq!(policy.allowed_methods, vec![HttpMethod::Get, HttpMethod::Post]);
    assert!(policy.allow_any_origin);
}

#[test]
fn listener_binds_every_interface() {
    assert_eq!(bind_address(SERVER_PORT), "0.0.0.0:3000");
    assert_eq!(bind_address(0), "0.0.0.0:0");
    assert_eq!(bind_address(u16::MAX), "0.0.0.0:65535");
}
