//! The bodies the task endpoints take and give.
pub mod adapters;
pub mod request_validation;

use vstd::prelude::*;
use vstd::string::*;

verus! {

/// The body of a request that creates or replaces a task.
#[derive(Debug, PartialEq, Eq)]
pub struct CreateTaskRequest {
    pub priority: Option<String>,
    pub title: String,
    pub description: Option<String>,
}

/// The reply to a created task.
#[derive(Debug, PartialEq, Eq)]
pub struct CreateTaskResponse {
    pub id: i32,
    pub priority: Option<String>,
    pub title: String,
    pub description: Option<String>,
}

/// The reply that shows one task.
#[derive(Debug, PartialEq, Eq)]
pub struct GetTaskResponse {
    pub id: i32,
    pub priority: Option<String>,
    pub title: String,
    pub description: Option<String>,
}

/// The query parameters a task listing may be narrowed by.
#[derive(Debug, PartialEq, Eq)]
pub struct TaskFilter {
    pub priority: Option<String>,
    pub user_id: Option<i32>,
    pub is_default: Option<bool>,
    pub title: Option<String>,
    pub description: Option<String>,
}

/// The reply to a deleted task.
#[derive(Debug, PartialEq, Eq)]
pub struct DeleteTaskResponse {
    pub id: i32,
    pub message: String,
}

/// The message that confirms a deletion.
pub open spec fn deletion_message() -> Seq<char> {
    "Task deleted successfully"@
}

impl DeleteTaskResponse {
    /// The reply to the deletion of task `task_id`, hard or soft.
    pub fn deleted(task_id: i32) -> (r: DeleteTaskResponse)
        ensures
            r.id == task_id,
            r.message@ == deletion_message(),
    {
        DeleteTaskResponse { id: task_id, message: String::from_str("Task deleted successfully") }
    }
}

} // verus!
