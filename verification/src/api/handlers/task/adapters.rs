//! Turning task rows into the bodies the task endpoints reply with.
use vstd::prelude::*;
use crate::api::handlers::task::{CreateTaskResponse, GetTaskResponse};
use crate::domain::tasks::{ActiveModel, Model};

verus! {

/// The reply that shows the stored task `task`.
pub open spec fn get_response_of(task: Model) -> GetTaskResponse {
    GetTaskResponse {
        id: task.id,
        priority: task.priority,
        title: task.title,
        description: task.description,
    }
}

/// The reply to a created task, from the row the database gave back. Its id,
/// priority, title and description must be known.
pub fn to_create_task_response(task: ActiveModel) -> (r: CreateTaskResponse)
    requires
        task.id.is_known(),
        task.priority.is_known(),
        task.title.is_known(),
        task.description.is_known(),
    ensures
        r.id == task.id.known(),
        r.priority == task.priority.known(),
        r.title == task.title.known(),
        r.description == task.description.known(),
{
    CreateTaskResponse {
        id: task.id.unwrap(),
        priority: task.priority.unwrap(),
        title: task.title.unwrap(),
        description: task.description.unwrap(),
    }
}

/// The reply that shows a stored task: its id, priority, title and description.
pub fn to_get_task_response(task: Model) -> (r: GetTaskResponse)
    ensures
        r == get_response_of(task),
{
    GetTaskResponse {
        id: task.id,
        priority: task.priority,
        title: task.title,
        description: task.description,
    }
}

/// The replies that show a listing of tasks, one for each, in the same order.
pub fn to_get_task_responses(tasks: Vec<Model>) -> (r: Vec<GetTaskResponse>)
    ensures
        r@ == tasks@.map_values(|t: Model| get_response_of(t)),
{
    let ghost all = tasks@;
    let mut rest = tasks;
    let mut out: Vec<GetTaskResponse> = Vec::new();
    while rest.len() > 0
        invariant
            out@.len() + rest@.len() == all.len(),
            rest@ == all.skip(out@.len() as int),
            out@ == all.take(out@.len() as int).map_values(|t: Model| get_response_of(t)),
        decreases rest@.len(),
    {
        let ghost k = out@.len() as int;
        let task = rest.remove(0);
        assert(task == all[k]);
        out.push(to_get_task_response(task));
        assert(rest@ =~= all.skip(k + 1));
        assert(all.take(k + 1) =~= all.take(k).push(all[k]));
        assert(out@ =~= all.take(k + 1).map_values(|t: Model| get_response_of(t)));
    }
    assert(all.take(all.len() as int) =~= all);
    out
}

} // verus!
