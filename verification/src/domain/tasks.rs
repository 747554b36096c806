//! A task row, the row about to be written, and the conditions a task query selects by.
use vstd::prelude::*;
use crate::domain::active_value::ActiveValue;
use crate::api::handlers::task::TaskFilter;
use crate::infra::clock::DateTimeWithTimeZone;

verus! {

/// A row of the `tasks` table.
#[derive(Debug, Clone, PartialEq, Eq)]
pub struct Model {
    pub id: i32,
    pub priority: Option<String>,
    pub title: String,
    pub completed_at: Option<DateTimeWithTimeZone>,
    pub description: Option<String>,
    pub deleted_at: Option<DateTimeWithTimeZone>,
    pub user_id: Option<i32>,
    pub is_default: Option<bool>,
}

/// A `tasks` row about to be inserted or updated.
#[derive(Debug, PartialEq, Eq)]
pub struct ActiveModel {
    pub id: ActiveValue<i32>,
    pub priority: ActiveValue<Option<String>>,
    pub title: ActiveValue<String>,
    pub completed_at: ActiveValue<Option<DateTimeWithTimeZone>>,
    pub description: ActiveValue<Option<String>>,
    pub deleted_at: ActiveValue<Option<DateTimeWithTimeZone>>,
    pub user_id: ActiveValue<Option<i32>>,
    pub is_default: ActiveValue<Option<bool>>,
}

impl ActiveModel {
    /// Whether every column is known.
    pub open spec fn is_complete(self) -> bool {
        &&& self.id.is_known()
        &&& self.priority.is_known()
        &&& self.title.is_known()
        &&& self.completed_at.is_known()
        &&& self.description.is_known()
        &&& self.deleted_at.is_known()
        &&& self.user_id.is_known()
        &&& self.is_default.is_known()
    }

    /// The row this one stands for, where every column is known.
    pub open spec fn row(self) -> Model
        recommends
            self.is_complete(),
    {
        Model {
            id: self.id.known(),
            priority: self.priority.known(),
            title: self.title.known(),
            completed_at: self.completed_at.known(),
            description: self.description.known(),
            deleted_at: self.deleted_at.known(),
            user_id: self.user_id.known(),
            is_default: self.is_default.known(),
        }
    }

    /// Whether no column is marked to be written.
    pub open spec fn writes_nothing(self) -> bool {
        &&& !(self.id is Assigned)
        &&& !(self.priority is Assigned)
        &&& !(self.title is Assigned)
        &&& !(self.completed_at is Assigned)
        &&& !(self.description is Assigned)
        &&& !(self.deleted_at is Assigned)
        &&& !(self.user_id is Assigned)
        &&& !(self.is_default is Assigned)
    }

    /// The active form of a stored row: every column known and unchanged.
    pub open spec fn spec_from_row(m: Model) -> ActiveModel {
        ActiveModel {
            id: ActiveValue::Unchanged(m.id),
            priority: ActiveValue::Unchanged(m.priority),
            title: ActiveValue::Unchanged(m.title),
            completed_at: ActiveValue::Unchanged(m.completed_at),
            description: ActiveValue::Unchanged(m.description),
            deleted_at: ActiveValue::Unchanged(m.deleted_at),
            user_id: ActiveValue::Unchanged(m.user_id),
            is_default: ActiveValue::Unchanged(m.is_default),
        }
    }

    /// The active form of a stored row: every column known and unchanged.
    pub fn from_row(m: Model) -> (r: ActiveModel)
        ensures
            r == Self::spec_from_row(m),
    {
        ActiveModel {
            id: ActiveValue::Unchanged(m.id),
            priority: ActiveValue::Unchanged(m.priority),
            title: ActiveValue::Unchanged(m.title),
            completed_at: ActiveValue::Unchanged(m.completed_at),
            description: ActiveValue::Unchanged(m.description),
            deleted_at: ActiveValue::Unchanged(m.deleted_at),
            user_id: ActiveValue::Unchanged(m.user_id),
            is_default: ActiveValue::Unchanged(m.is_default),
        }
    }
}


/// One condition a task query selects rows by.
#[derive(Debug, PartialEq, Eq)]
pub enum TaskCondition {
    /// The id equals the given one.
    IdEq(i32),
    /// `deleted_at` is null: the task was not soft-deleted.
    NotDeleted,
    /// The priority equals the given text.
    PriorityEq(String),
    /// The task is linked to the given user.
    UserEq(i32),
    /// The title is `LIKE '%text%'`.
    TitleContains(String),
    /// The default flag equals the given one.
    IsDefaultEq(bool),
    /// The description is `LIKE '%text%'`.
    DescriptionContains(String),
}

impl TaskCondition {
    /// Whether this condition surely rejects `task`. How `LIKE` compares text
    /// depends on the database, so of the two text conditions only this is
    /// claimed: a null column never matches.
    pub open spec fn rules_out(self, task: Model) -> bool {
        match self {
            TaskCondition::IdEq(id) => task.id != id,
            TaskCondition::NotDeleted => task.deleted_at is Some,
            TaskCondition::PriorityEq(p) => task.priority is None || task.priority->0@ != p@,
            TaskCondition::UserEq(u) => task.user_id != Some(u),
            TaskCondition::TitleContains(_) => false,
            TaskCondition::IsDefaultEq(d) => task.is_default != Some(d),
            TaskCondition::DescriptionContains(_) => task.description is None,
        }
    }
}

/// Whether some condition of `conditions` surely rejects `task`, so that a
/// query selecting by all of them never yields it.
pub open spec fn rules_out_all(conditions: Seq<TaskCondition>, task: Model) -> bool {
    exists|i: int| 0 <= i < conditions.len() && #[trigger] conditions[i].rules_out(task)
}

/// The one-element sequence of `c`, or nothing.
pub open spec fn optional<T>(c: Option<T>) -> Seq<T> {
    match c {
        Some(x) => seq![x],
        None => Seq::empty(),
    }
}

/// The condition a priority narrows by, if given.
pub open spec fn by_priority(priority: Option<String>) -> Seq<TaskCondition> {
    optional(match priority { Some(p) => Some(TaskCondition::PriorityEq(p)), None => None })
}

/// The condition a user narrows by, if given.
pub open spec fn by_user(user_id: Option<i32>) -> Seq<TaskCondition> {
    optional(match user_id { Some(u) => Some(TaskCondition::UserEq(u)), None => None })
}

/// The condition a title narrows by, if given.
pub open spec fn by_title(title: Option<String>) -> Seq<TaskCondition> {
    optional(match title { Some(t) => Some(TaskCondition::TitleContains(t)), None => None })
}

/// The condition a default flag narrows by, if given.
pub open spec fn by_default(is_default: Option<bool>) -> Seq<TaskCondition> {
    optional(match is_default { Some(d) => Some(TaskCondition::IsDefaultEq(d)), None => None })
}

/// The condition a description narrows by, if given.
pub open spec fn by_description(description: Option<String>) -> Seq<TaskCondition> {
    optional(
        match description { Some(d) => Some(TaskCondition::DescriptionContains(d)), None => None },
    )
}

/// The conditions a filter narrows a listing by, in the order they are added:
/// not deleted, then priority, user, title, default flag and description,
/// each where the filter gives it.
pub open spec fn filter_conditions(filter: TaskFilter) -> Seq<TaskCondition> {
    seq![TaskCondition::NotDeleted] + by_priority(filter.priority) + by_user(filter.user_id)
        + by_title(filter.title) + by_default(filter.is_default) + by_description(
        filter.description,
    )
}

/// A query over the `tasks` table: the conditions it selects rows by, all of
/// which a row must meet.
#[derive(Debug, PartialEq, Eq)]
pub struct TaskQuery {
    pub conditions: Vec<TaskCondition>,
}

impl TaskQuery {
    /// The query that selects every row.
    pub fn new() -> (r: TaskQuery)
        ensures
            r.conditions@ == Seq::<TaskCondition>::empty(),
    {
        TaskQuery { conditions: Vec::new() }
    }

    /// Adds a condition.
    pub fn filter(self, condition: TaskCondition) -> (r: TaskQuery)
        ensures
            r.conditions@ == self.conditions@.push(condition),
    {
        let mut q = self;
        q.conditions.push(condition);
        q
    }
}

/// Narrowing a task query by the fields of a filter.
pub trait TaskFilterExt: Sized {
    /// The conditions the query selects by.
    spec fn selects_by(&self) -> Seq<TaskCondition>;

    /// Keeps only tasks that were not soft-deleted.
    fn filter_active(self) -> (r: Self)
        ensures
            r.selects_by() == self.selects_by().push(TaskCondition::NotDeleted),
    ;

    /// Keeps only tasks of the given priority, if one is given.
    fn filter_by_priority(self, priority: Option<String>) -> (r: Self)
        ensures
            r.selects_by() == self.selects_by() + by_priority(priority),
    ;

    /// Keeps only tasks of the given user, if one is given.
    fn filter_by_user(self, user_id: Option<i32>) -> (r: Self)
        ensures
            r.selects_by() == self.selects_by() + by_user(user_id),
    ;

    /// Keeps only tasks whose title holds the given text, if one is given.
    fn filter_by_title(self, title: Option<String>) -> (r: Self)
        ensures
            r.selects_by() == self.selects_by() + by_title(title),
    ;

    /// Keeps only tasks whose description holds the given text, if one is given.
    fn filter_by_descritpion(self, description: Option<String>) -> (r: Self)
        ensures
            r.selects_by() == self.selects_by() + by_description(description),
    ;

    /// Keeps only tasks with the given default flag, if one is given.
    fn filter_by_default(self, is_default: Option<bool>) -> (r: Self)
        ensures
            r.selects_by() == self.selects_by() + by_default(is_default),
    ;

    /// Narrows by every field of the filter.
    fn filter_by_fields(self, filter: TaskFilter) -> (r: Self)
        ensures
            r.selects_by() == self.selects_by() + filter_conditions(filter),
    ;
}

impl TaskFilterExt for TaskQuery {
    open spec fn selects_by(&self) -> Seq<TaskCondition> {
        self.conditions@
    }

    fn filter_active(self) -> (r: Self) {
        self.filter(TaskCondition::NotDeleted)
    }

    fn filter_by_priority(self, priority: Option<String>) -> (r: Self) {
        let r = match priority {
            Some(p) => self.filter(TaskCondition::PriorityEq(p)),
            None => self,
        };
        assert(r.conditions@ =~= self.conditions@ + by_priority(priority));
        r
    }

    fn filter_by_user(self, user_id: Option<i32>) -> (r: Self) {
        let r = match user_id {
            Some(u) => self.filter(TaskCondition::UserEq(u)),
            None => self,
        };
        assert(r.conditions@ =~= self.conditions@ + by_user(user_id));
        r
    }

    fn filter_by_title(self, title: Option<String>) -> (r: Self) {
        let r = match title {
            Some(t) => self.filter(TaskCondition::TitleContains(t)),
            None => self,
        };
        assert(r.conditions@ =~= self.conditions@ + by_title(title));
        r
    }

    fn filter_by_descritpion(self, description: Option<String>) -> (r: Self) {
        let r = match description {
            Some(d) => self.filter(TaskCondition::DescriptionContains(d)),
            None => self,
        };
        assert(r.conditions@ =~= self.conditions@ + by_description(description));
        r
    }

    fn filter_by_default(self, is_default: Option<bool>) -> (r: Self) {
        let r = match is_default {
            Some(d) => self.filter(TaskCondition::IsDefaultEq(d)),
            None => self,
        };
        assert(r.conditions@ =~= self.conditions@ + by_default(is_default));
        r
    }

    fn filter_by_fields(self, filter: TaskFilter) -> (r: Self) {
        let ghost start = self.conditions@;
        let ghost f = filter;
        let TaskFilter { priority, user_id, is_default, title, description } = filter;
        let r = self.filter_active().filter_by_priority(priority).filter_by_user(
            user_id,
        ).filter_by_title(title).filter_by_default(is_default).filter_by_descritpion(description);
        assert(r.conditions@ =~= start + filter_conditions(f));
        r
    }
}

} // verus!
