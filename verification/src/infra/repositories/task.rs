//! What the task repository writes, asks and answers, around its database calls.
use vstd::prelude::*;
use vstd::string::*;
use crate::api::handlers::task::{CreateTaskRequest, GetTaskResponse, TaskFilter};
use crate::api::handlers::task::adapters::get_response_of;
use crate::domain::active_value::ActiveValue;
use crate::domain::tasks::{
    by_default, by_description, by_priority, by_title, by_user, filter_conditions, rules_out_all,
    ActiveModel, Model, TaskCondition, TaskFilterExt, TaskQuery,
};
use crate::infra::clock::{current_time, DateTimeWithTimeZone};
use crate::infra::error::AppError;
use crate::text::{decimal, filled, int_text};

verus! {

/// The message of the error for a task that is not there.
pub open spec fn not_found_message(id: i32) -> Seq<char> {
    "Task with id "@ + int_text(id as int) + " not found"@
}

/// The row `create_task` inserts: the body's priority, title and description,
/// every other column left to the database.
pub open spec fn created(task: CreateTaskRequest) -> ActiveModel {
    ActiveModel {
        id: ActiveValue::NotSet,
        priority: ActiveValue::Assigned(task.priority),
        title: ActiveValue::Assigned(task.title),
        completed_at: ActiveValue::NotSet,
        description: ActiveValue::Assigned(task.description),
        deleted_at: ActiveValue::NotSet,
        user_id: ActiveValue::NotSet,
        is_default: ActiveValue::NotSet,
    }
}

/// The row `create_task` inserts.
pub fn create_task_row(task: CreateTaskRequest) -> (r: ActiveModel)
    ensures
        r == created(task),
{
    ActiveModel {
        id: ActiveValue::NotSet,
        priority: ActiveValue::Assigned(task.priority),
        title: ActiveValue::Assigned(task.title),
        completed_at: ActiveValue::NotSet,
        description: ActiveValue::Assigned(task.description),
        deleted_at: ActiveValue::NotSet,
        user_id: ActiveValue::NotSet,
        is_default: ActiveValue::NotSet,
    }
}

/// The conditions the lookup of task `id` selects by.
pub open spec fn lookup_conditions(id: i32) -> Seq<TaskCondition> {
    seq![TaskCondition::IdEq(id), TaskCondition::NotDeleted]
}

/// The query `get_task_by_id` runs: the task with that id, unless soft-deleted.
pub fn get_task_by_id_query(id: i32) -> (r: TaskQuery)
    ensures
        r.conditions@ == lookup_conditions(id),
{
    let r = TaskQuery::new().filter(TaskCondition::IdEq(id)).filter(TaskCondition::NotDeleted);
    assert(r.conditions@ =~= lookup_conditions(id));
    r
}

/// The error for a task `id` that is not there.
pub fn task_not_found(id: i32) -> (e: AppError)
    ensures
        e matches AppError::NotFound(m) && m@ == not_found_message(id),
{
    let mut m = String::from_str("Task with id ");
    let digits = decimal(id);
    m.append(digits.as_str());
    m.append(" not found");
    AppError::NotFound(m)
}

/// What `get_task_by_id` answers, given the row its query found, if any: the
/// row, or not found.
pub fn get_task_by_id_outcome(id: i32, found: Option<Model>) -> (r: Result<Model, AppError>)
    ensures
        found matches Some(t) ==> r == Ok::<Model, AppError>(t),
        found is None ==> (r matches Err(AppError::NotFound(m)) && m@ == not_found_message(id)),
{
    match found {
        Some(t) => Ok(t),
        None => Err(task_not_found(id)),
    }
}

/// What `hard_remove_task_by_id` answers, given how many rows the deletion of
/// task `id` removed: done if one was, not found if none was.
pub fn hard_remove_outcome(id: i32, rows_affected: u64) -> (r: Result<(), AppError>)
    ensures
        r is Ok <==> rows_affected != 0,
        rows_affected == 0 ==> (r matches Err(AppError::NotFound(m)) && m@ == not_found_message(id)),
{
    if rows_affected == 0 {
        return Err(task_not_found(id));
    }
    Ok(())
}

/// The error for a deletion the database refused, with its reason.
pub fn hard_remove_failure(reason: String) -> (e: AppError)
    ensures
        e matches AppError::InternalError(m) && m@ == "Failed to delete task: "@ + reason@,
{
    let mut m = String::from_str("Failed to delete task: ");
    m.append(reason.as_str());
    AppError::InternalError(m)
}

/// The row a soft deletion at time `now` writes: the stored row with
/// `deleted_at` set to `now`, every other column unchanged.
pub open spec fn soft_removed(task: Model, now: DateTimeWithTimeZone) -> ActiveModel {
    ActiveModel { deleted_at: ActiveValue::Assigned(Some(now)), ..ActiveModel::spec_from_row(task) }
}

/// The row a soft deletion writes at time `now`.
pub fn soft_remove_row_at(task: Model, now: DateTimeWithTimeZone) -> (r: ActiveModel)
    ensures
        r == soft_removed(task, now),
{
    let mut r = ActiveModel::from_row(task);
    r.deleted_at = ActiveValue::Assigned(Some(now));
    r
}

/// The row `soft_remove_task_by_id` writes: the stored row with `deleted_at`
/// set to the current time, every other column unchanged.
pub fn soft_remove_row(task: Model) -> (r: ActiveModel)
    ensures
        r.deleted_at matches ActiveValue::Assigned(Some(now)) && now.offset_seconds == 0
            && now.unix_seconds >= 0 && now.nanos < 1_000_000_000 && r == soft_removed(task, now),
{
    let now = current_time();
    soft_remove_row_at(task, now)
}

/// The conditions a listing narrowed by `filter` selects by: those of the
/// filter, then not deleted once more.
pub open spec fn listing_conditions(filter: TaskFilter) -> Seq<TaskCondition> {
    filter_conditions(filter).push(TaskCondition::NotDeleted)
}

/// The query `list_tasks_by_filter` runs.
pub fn list_tasks_by_filter_query(filter: TaskFilter) -> (r: TaskQuery)
    ensures
        r.conditions@ == listing_conditions(filter),
{
    let r = TaskQuery::new().filter_by_fields(filter).filter(TaskCondition::NotDeleted);
    assert(r.conditions@ =~= listing_conditions(filter));
    r
}

/// The row `update_task` writes: the stored row with the body's priority,
/// title and description assigned, every other column unchanged.
pub open spec fn updated(task_db: Model, task: CreateTaskRequest) -> ActiveModel {
    ActiveModel {
        priority: ActiveValue::Assigned(task.priority),
        title: ActiveValue::Assigned(task.title),
        description: ActiveValue::Assigned(task.description),
        ..ActiveModel::spec_from_row(task_db)
    }
}

/// The row `update_task` writes.
pub fn update_task_row(task_db: Model, task: CreateTaskRequest) -> (r: ActiveModel)
    ensures
        r == updated(task_db, task),
{
    let mut r = ActiveModel::from_row(task_db);
    r.priority = ActiveValue::Assigned(task.priority);
    r.title = ActiveValue::Assigned(task.title);
    r.description = ActiveValue::Assigned(task.description);
    r
}

/// The row `link_user_to_task` hands to the database: the stored row with
/// `user_id` replaced, every column (the new user too) marked unchanged, as
/// the conversion from a stored row marks them.
pub fn link_user_to_task_row(task: Model, user_id: i32) -> (r: ActiveModel)
    ensures
        r == ActiveModel::spec_from_row(Model { user_id: Some(user_id), ..task }),
        r.writes_nothing(),
{
    let mut task = task;
    task.user_id = Some(user_id);
    ActiveModel::from_row(task)
}

/// A soft-deleted task is hidden: the lookup of any id and the listing under
/// any filter both rule out the row a soft deletion writes.
pub proof fn soft_removed_task_is_hidden(
    task: Model,
    now: DateTimeWithTimeZone,
    id: i32,
    filter: TaskFilter,
)
    ensures
        soft_removed(task, now).is_complete(),
        rules_out_all(lookup_conditions(id), soft_removed(task, now).row()),
        rules_out_all(listing_conditions(filter), soft_removed(task, now).row()),
{
    let row = soft_removed(task, now).row();
    assert(lookup_conditions(id)[1].rules_out(row));
    let conds = listing_conditions(filter);
    assert(conds[conds.len() - 1] == TaskCondition::NotDeleted);
    assert(conds[conds.len() - 1].rules_out(row));
}

/// The lookup of task `id` never yields a task with another id, nor a
/// soft-deleted one.
pub proof fn lookup_yields_only_the_live_task(id: i32, task: Model)
    requires
        task.id != id || task.deleted_at is Some,
    ensures
        rules_out_all(lookup_conditions(id), task),
{
    if task.id != id {
        assert(lookup_conditions(id)[0].rules_out(task));
    } else {
        assert(lookup_conditions(id)[1].rules_out(task));
    }
}

/// A listing never yields a task that a priority, user or default flag given
/// in the filter excludes.
pub proof fn listing_respects_the_filter(filter: TaskFilter, task: Model)
    requires
        (filter.priority matches Some(p) && (task.priority is None || task.priority->0@ != p@))
            || (filter.user_id matches Some(u) && task.user_id != Some(u)) || (
        filter.is_default matches Some(d) && task.is_default != Some(d)),
    ensures
        rules_out_all(listing_conditions(filter), task),
{
    let conds = listing_conditions(filter);
    let a = seq![TaskCondition::NotDeleted];
    let b = by_priority(filter.priority);
    let c = by_user(filter.user_id);
    let d = by_title(filter.title);
    let e = by_default(filter.is_default);
    assert(conds =~= (a + b + c + d + e + by_description(filter.description)).push(
        TaskCondition::NotDeleted,
    ));
    if filter.priority is Some && (task.priority is None || task.priority->0@
        != filter.priority->0@) {
        let p = filter.priority->0;
        assert(conds[1] == TaskCondition::PriorityEq(p));
        assert(conds[1].rules_out(task));
    } else if filter.user_id is Some && task.user_id != Some(filter.user_id->0) {
        let u = filter.user_id->0;
        let k: int = (1 + b.len()) as int;
        assert(conds[k] == TaskCondition::UserEq(u));
        assert(conds[k].rules_out(task));
    } else {
        let dd = filter.is_default->0;
        let k: int = (1 + b.len() + c.len() + d.len()) as int;
        assert(conds[k] == TaskCondition::IsDefaultEq(dd));
        assert(conds[k].rules_out(task));
    }
}

/// After an update the stored task shows the body's priority, title and
/// description under its own id, and keeps every other column.
pub proof fn updated_task_shows_the_body(task_db: Model, task: CreateTaskRequest)
    ensures
        updated(task_db, task).is_complete(),
        updated(task_db, task).row() == (Model {
            priority: task.priority,
            title: task.title,
            description: task.description,
            ..task_db
        }),
        get_response_of(updated(task_db, task).row()) == (GetTaskResponse {
            id: task_db.id,
            priority: task.priority,
            title: task.title,
            description: task.description,
        }),
{
}

/// A body that passes validation is written with its priority, which is
/// given and not empty, whether it creates a task or replaces one.
pub proof fn accepted_bodies_are_written_with_a_priority(task_db: Model, task: CreateTaskRequest)
    requires
        filled(task.priority),
    ensures
        created(task).priority == ActiveValue::Assigned(task.priority),
        updated(task_db, task).priority == ActiveValue::Assigned(task.priority),
        updated(task_db, task).row().priority is Some,
        updated(task_db, task).row().priority->0@.len() > 0,
{
}

/// Asking for more never yields more: when `strict` gives every criterion
/// `loose` gives, with the same value, and perhaps more, every task the listing
/// under `loose` rules out the listing under `strict` rules out too.
pub proof fn more_criteria_never_add_rows(loose: TaskFilter, strict: TaskFilter, task: Model)
    requires
        loose.priority is Some ==> strict.priority == loose.priority,
        loose.user_id is Some ==> strict.user_id == loose.user_id,
        loose.is_default is Some ==> strict.is_default == loose.is_default,
        loose.title is Some ==> strict.title == loose.title,
        loose.description is Some ==> strict.description == loose.description,
        rules_out_all(listing_conditions(loose), task),
    ensures
        rules_out_all(listing_conditions(strict), task),
{
    broadcast use vstd::seq_lib::lemma_seq_concat_contains_all_elements,
        vstd::seq_lib::lemma_seq_contains_after_push,
        vstd::seq_lib::lemma_seq_empty_contains_nothing;

    let cl = listing_conditions(loose);
    let cs = listing_conditions(strict);
    let i = choose|i: int| 0 <= i < cl.len() && #[trigger] cl[i].rules_out(task);
    let c = cl[i];
    assert(cl.contains(c));
    assert(by_priority(loose.priority).contains(c) ==> by_priority(strict.priority).contains(c));
    assert(by_user(loose.user_id).contains(c) ==> by_user(strict.user_id).contains(c));
    assert(by_title(loose.title).contains(c) ==> by_title(strict.title).contains(c));
    assert(by_default(loose.is_default).contains(c) ==> by_default(strict.is_default).contains(c));
    assert(by_description(loose.description).contains(c) ==> by_description(
        strict.description,
    ).contains(c));
    assert(cs.contains(c));
    let j = choose|j: int| 0 <= j < cs.len() && cs[j] == c;
    assert(cs[j].rules_out(task));
}

/// A listing without criteria rules out exactly the soft-deleted tasks.
pub proof fn listing_without_criteria_hides_only_deleted(filter: TaskFilter, task: Model)
    requires
        filter.priority is None,
        filter.user_id is None,
        filter.is_default is None,
        filter.title is None,
        filter.description is None,
    ensures
        rules_out_all(listing_conditions(filter), task) <==> task.deleted_at is Some,
{
    let cs = listing_conditions(filter);
    assert(cs =~= seq![TaskCondition::NotDeleted, TaskCondition::NotDeleted]);
    if task.deleted_at is Some {
        assert(cs[0].rules_out(task));
    }
}

/// Every criterion a filter gives reaches the listing: a given priority,
/// user, title text, default flag or description text each appears among the
/// conditions the listing selects by, whatever the other fields are, and the
/// listing always keeps soft-deleted tasks out.
pub proof fn every_given_criterion_is_applied(filter: TaskFilter)
    ensures
        listing_conditions(filter).contains(TaskCondition::NotDeleted),
        filter.priority matches Some(p) ==> listing_conditions(filter).contains(
            TaskCondition::PriorityEq(p),
        ),
        filter.user_id matches Some(u) ==> listing_conditions(filter).contains(
            TaskCondition::UserEq(u),
        ),
        filter.title matches Some(t) ==> listing_conditions(filter).contains(
            TaskCondition::TitleContains(t),
        ),
        filter.is_default matches Some(d) ==> listing_conditions(filter).contains(
            TaskCondition::IsDefaultEq(d),
        ),
        filter.description matches Some(d) ==> listing_conditions(filter).contains(
            TaskCondition::DescriptionContains(d),
        ),
{
    broadcast use vstd::seq_lib::lemma_seq_concat_contains_all_elements,
        vstd::seq_lib::lemma_seq_contains_after_push;

    let cs = listing_conditions(filter);
    assert(seq![TaskCondition::NotDeleted].contains(TaskCondition::NotDeleted)) by {
        assert(seq![TaskCondition::NotDeleted][0] == TaskCondition::NotDeleted);
    }
    if filter.priority is Some {
        let p = filter.priority->0;
        assert(by_priority(filter.priority)[0] == TaskCondition::PriorityEq(p));
        assert(by_priority(filter.priority).contains(TaskCondition::PriorityEq(p)));
    }
    if filter.user_id is Some {
        let u = filter.user_id->0;
        assert(by_user(filter.user_id)[0] == TaskCondition::UserEq(u));
        assert(by_user(filter.user_id).contains(TaskCondition::UserEq(u)));
    }
    if filter.title is Some {
        let t = filter.title->0;
        assert(by_title(filter.title)[0] == TaskCondition::TitleContains(t));
        assert(by_title(filter.title).contains(TaskCondition::TitleContains(t)));
    }
    if filter.is_default is Some {
        let d = filter.is_default->0;
        assert(by_default(filter.is_default)[0] == TaskCondition::IsDefaultEq(d));
        assert(by_default(filter.is_default).contains(TaskCondition::IsDefaultEq(d)));
    }
    if filter.description is Some {
        let d = filter.description->0;
        assert(by_description(filter.description)[0] == TaskCondition::DescriptionContains(d));
        assert(by_description(filter.description).contains(TaskCondition::DescriptionContains(d)));
    }
}

/// A created task is inserted with exactly the body's priority, title and
/// description, each marked to be written; its id and every other column are
/// left to the database.
pub proof fn creation_writes_exactly_the_body(task: CreateTaskRequest)
    ensures
        created(task).priority == ActiveValue::Assigned(task.priority),
        created(task).title == ActiveValue::Assigned(task.title),
        created(task).description == ActiveValue::Assigned(task.description),
        created(task).id is NotSet,
        created(task).completed_at is NotSet,
        created(task).deleted_at is NotSet,
        created(task).user_id is NotSet,
        created(task).is_default is NotSet,
{
}

/// An update writes exactly the body's priority, title and description, each
/// marked to be written with the body's value (an absent description is
/// written as null), and leaves every other column of the stored task as it is.
pub proof fn update_writes_exactly_the_body(task_db: Model, task: CreateTaskRequest)
    ensures
        updated(task_db, task).priority == ActiveValue::Assigned(task.priority),
        updated(task_db, task).title == ActiveValue::Assigned(task.title),
        updated(task_db, task).description == ActiveValue::Assigned(task.description),
        updated(task_db, task).id == ActiveValue::Unchanged(task_db.id),
        updated(task_db, task).completed_at == ActiveValue::Unchanged(task_db.completed_at),
        updated(task_db, task).deleted_at == ActiveValue::Unchanged(task_db.deleted_at),
        updated(task_db, task).user_id == ActiveValue::Unchanged(task_db.user_id),
        updated(task_db, task).is_default == ActiveValue::Unchanged(task_db.is_default),
{
}

} // verus!
