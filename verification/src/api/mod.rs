//! The service's routes and its cross-origin policy.
pub mod handlers;

use vstd::prelude::*;

verus! {

/// An HTTP method the service routes.
#[derive(Debug, Clone, Copy, PartialEq, Eq)]
pub enum HttpMethod {
    Get,
    Post,
    Put,
    Delete,
}

/// The handler a route leads to.
#[derive(Debug, Clone, Copy, PartialEq, Eq)]
pub enum Endpoint {
    CreateTask,
    GetAllTasks,
    GetById,
    PutTask,
    HardDeleteById,
    SoftDeleteById,
    LinkUserToTask,
    CreateUser,
}

/// A method and path pattern (`{name}` marks a path parameter) and the
/// handler requests matching them go to.
#[derive(Debug, Clone, Copy, PartialEq, Eq)]
pub struct Route {
    pub method: HttpMethod,
    pub path: &'static str,
    pub endpoint: Endpoint,
}

/// The routes of the service, in the order they are registered.
pub open spec fn route_table() -> Seq<(HttpMethod, Seq<char>, Endpoint)> {
    seq![
        (HttpMethod::Post, "/task"@, Endpoint::CreateTask),
        (HttpMethod::Get, "/task"@, Endpoint::GetAllTasks),
        (HttpMethod::Get, "/task/{id}"@, Endpoint::GetById),
        (HttpMethod::Put, "/task/{id}"@, Endpoint::PutTask),
        (HttpMethod::Delete, "/task/hard/{id}"@, Endpoint::HardDeleteById),
        (HttpMethod::Delete, "/task/{id}"@, Endpoint::SoftDeleteById),
        (HttpMethod::Put, "/task/user/{user_id}/{task_id}"@, Endpoint::LinkUserToTask),
        (HttpMethod::Post, "/user"@, Endpoint::CreateUser),
    ]
}

/// The route table of the service.
pub fn routes() -> (r: Vec<Route>)
    ensures
        r@.len() == route_table().len(),
        forall|i: int|
            0 <= i < r@.len() ==> (#[trigger] r@[i]).method == route_table()[i].0
                && r@[i].path@ == route_table()[i].1 && r@[i].endpoint == route_table()[i].2,
{
    let mut r: Vec<Route> = Vec::new();
    r.push(Route { method: HttpMethod::Post, path: "/task", endpoint: Endpoint::CreateTask });
    r.push(Route { method: HttpMethod::Get, path: "/task", endpoint: Endpoint::GetAllTasks });
    r.push(Route { method: HttpMethod::Get, path: "/task/{id}", endpoint: Endpoint::GetById });
    r.push(Route { method: HttpMethod::Put, path: "/task/{id}", endpoint: Endpoint::PutTask });
    r.push(
        Route {
            method: HttpMethod::Delete,
            path: "/task/hard/{id}",
            endpoint: Endpoint::HardDeleteById,
        },
    );
    r.push(
        Route { method: HttpMethod::Delete, path: "/task/{id}", endpoint: Endpoint::SoftDeleteById },
    );
    r.push(
        Route {
            method: HttpMethod::Put,
            path: "/task/user/{user_id}/{task_id}",
            endpoint: Endpoint::LinkUserToTask,
        },
    );
    r.push(Route { method: HttpMethod::Post, path: "/user", endpoint: Endpoint::CreateUser });
    r
}

/// Which cross-origin requests the service admits.
#[derive(Debug, Clone, PartialEq, Eq)]
pub struct CorsPolicy {
    pub allowed_methods: Vec<HttpMethod>,
    pub allow_any_origin: bool,
}

/// The cross-origin policy: `GET` and `POST` from any origin.
pub fn build_cors_layer() -> (r: CorsPolicy)
    ensures
        r.allowed_methods@ == seq![HttpMethod::Get, HttpMethod::Post],
        r.allow_any_origin,
{
    let mut allowed_methods = Vec::new();
    allowed_methods.push(HttpMethod::Get);
    allowed_methods.push(HttpMethod::Post);
    CorsPolicy { allowed_methods, allow_any_origin: true }
}

} // verus!
