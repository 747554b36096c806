//! The state of one column of a row that is about to be written.
use vstd::prelude::*;

verus! {

/// A column value on its way to the database: `Assigned` is written, `Unchanged`
/// is known but left as it is, `NotSet` is not known here (the database
/// supplies it, as it does a fresh primary key).
#[derive(Debug, PartialEq, Eq)]
pub enum ActiveValue<V> {
    Assigned(V),
    Unchanged(V),
    NotSet,
}

impl<V> ActiveValue<V> {
    /// Whether the value is known.
    pub open spec fn is_known(self) -> bool {
        !(self is NotSet)
    }

    /// The value, where it is known.
    pub open spec fn known(self) -> V
        recommends
            self.is_known(),
    {
        match self {
            ActiveValue::Assigned(v) => v,
            ActiveValue::Unchanged(v) => v,
            ActiveValue::NotSet => arbitrary(),
        }
    }

    /// Whether the value is not known.
    pub fn is_not_set(&self) -> (r: bool)
        ensures
            r == !self.is_known(),
    {
        match self {
            ActiveValue::NotSet => true,
            _ => false,
        }
    }

    /// The known value; the value must be known.
    pub fn unwrap(self) -> (v: V)
        requires
            self.is_known(),
        ensures
            v == self.known(),
    {
        match self {
            ActiveValue::Assigned(v) => v,
            ActiveValue::Unchanged(v) => v,
            ActiveValue::NotSet => unreached(),
        }
    }
}

} // verus!
