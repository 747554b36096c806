pub mod active_value;
pub mod tasks;
pub mod users;
