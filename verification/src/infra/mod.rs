pub mod auth;
pub mod clock;
pub mod error;
pub mod http_server;
pub mod repositories;
