//! The task entity: a stored row, and the fields that a caller supplies.

use vstd::prelude::*;

verus! {

/// A task as storage holds it. Storage assigns the id; a missing priority is
/// kept as missing, never as zero.
#[derive(Debug, Clone, PartialEq, Eq)]
pub struct TaskRow {
    pub id: i32,
    pub name: String,
    pub priority: Option<i32>,
}

/// A stored task, as a mathematical value.
pub struct TaskView {
    pub id: int,
    pub name: Seq<char>,
    pub priority: Option<int>,
}

/// The fields of a task that a caller sets, on creation and on update.
#[derive(Debug, Clone, PartialEq, Eq)]
pub struct TaskFields {
    pub name: String,
    pub priority: Option<i32>,
}

/// The fields that a caller sets, as a mathematical value.
pub struct FieldsView {
    pub name: Seq<char>,
    pub priority: Option<int>,
}

/// An optional machine integer as an optional mathematical one.
pub open spec fn priority_view(priority: Option<i32>) -> Option<int> {
    match priority {
        Some(level) => Some(level as int),
        None => None,
    }
}

impl View for TaskRow {
    type V = TaskView;

    open spec fn view(&self) -> TaskView {
        TaskView { id: self.id as int, name: self.name@, priority: priority_view(self.priority) }
    }
}

impl View for TaskFields {
    type V = FieldsView;

    open spec fn view(&self) -> FieldsView {
        FieldsView { name: self.name@, priority: priority_view(self.priority) }
    }
}

impl TaskView {
    /// The task under the same id with other fields.
    pub open spec fn replaced(self, fields: FieldsView) -> TaskView {
        TaskView { id: self.id, name: fields.name, priority: fields.priority }
    }
}

impl FieldsView {
    /// The task that these fields make under an id.
    pub open spec fn with_id(self, id: int) -> TaskView {
        TaskView { id, name: self.name, priority: self.priority }
    }
}

impl TaskRow {
    /// A second row with the same fields.
    pub fn duplicate(&self) -> (copy: TaskRow)
        ensures
            copy == *self,
    {
        TaskRow { id: self.id, name: self.name.clone(), priority: self.priority }
    }
}

impl TaskFields {
    /// The row that these fields make under an id.
    pub fn into_row(self, id: i32) -> (row: TaskRow)
        ensures
            row@ == self@.with_id(id as int),
    {
        TaskRow { id, name: self.name, priority: self.priority }
    }
}

} // verus!
