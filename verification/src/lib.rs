//! Request validation, response shaping, error replies, task query
//! building, repository decisions and bearer-token authorisation of a
//! small task-tracking HTTP service.
pub mod api;
pub mod domain;
pub mod infra;
pub mod text;
