//! A user row and the row about to be written.
use vstd::prelude::*;
use crate::domain::active_value::ActiveValue;

verus! {

/// A row of the `users` table.
#[derive(Debug, PartialEq, Eq)]
pub struct Model {
    pub id: i32,
    pub username: String,
    pub password: String,
    pub token: Option<String>,
}

/// A `users` row about to be inserted.
#[derive(Debug, PartialEq, Eq)]
pub struct ActiveModel {
    pub id: ActiveValue<i32>,
    pub username: ActiveValue<String>,
    pub password: ActiveValue<String>,
    pub token: ActiveValue<Option<String>>,
}

} // verus!
