//! The statements that the service sends to storage, one for each operation,
//! and what storage answers.
//!
//! Every statement works on the one table `tasks`. Values never enter the
//! SQL text: they travel as parameters, `$1` first.

use vstd::prelude::*;
use crate::envelope::rows_view;
use crate::task::{priority_view, FieldsView, TaskFields, TaskRow, TaskView};

verus! {

/// A statement for storage.
#[derive(Debug, Clone, PartialEq, Eq)]
pub enum Statement {
    /// Every task, the highest id first.
    SelectAll,
    /// The task with this id, if there is one.
    SelectById { id: i32 },
    /// A new task; storage assigns its id and hands it back.
    Insert { fields: TaskFields },
    /// New fields for the task with this id; the id stays.
    Update { id: i32, fields: TaskFields },
    /// The task with this id goes.
    Delete { id: i32 },
}

/// A statement as a mathematical value.
pub enum StatementView {
    SelectAll,
    SelectById { id: int },
    Insert { fields: FieldsView },
    Update { id: int, fields: FieldsView },
    Delete { id: int },
}

/// A parameter of a statement.
#[derive(Debug, Clone, PartialEq, Eq)]
pub enum Param {
    Int(i32),
    Text(String),
    /// An integer, or SQL `NULL`.
    OptionalInt(Option<i32>),
}

/// A parameter as a mathematical value.
pub enum ParamView {
    Int(int),
    Text(Seq<char>),
    OptionalInt(Option<int>),
}

/// What a statement asks storage to hand back.
#[derive(Debug, Clone, Copy, PartialEq, Eq)]
pub enum Answer {
    /// The rows that a select finds.
    Rows,
    /// The id that an insert assigned.
    NewId,
    /// Nothing: the count of rows that an update or a delete touched is not
    /// looked at.
    Nothing,
}

/// What storage answers to a statement.
#[derive(Debug, Clone, PartialEq, Eq)]
pub enum Outcome {
    /// The rows of a select, in the order storage gave them.
    Rows(Vec<TaskRow>),
    /// The id that an insert assigned.
    Created(i32),
    /// An update or a delete was carried out, on a row or on none.
    Done,
    /// Storage failed; its description of the failure.
    Failed(String),
}

/// An answer of storage as a mathematical value.
pub enum OutcomeView {
    Rows(Seq<TaskView>),
    Created(int),
    Done,
    Failed(Seq<char>),
}

impl View for Statement {
    type V = StatementView;

    open spec fn view(&self) -> StatementView {
        match self {
            Statement::SelectAll => StatementView::SelectAll,
            Statement::SelectById { id } => StatementView::SelectById { id: *id as int },
            Statement::Insert { fields } => StatementView::Insert { fields: fields@ },
            Statement::Update { id, fields } => StatementView::Update {
                id: *id as int,
                fields: fields@,
            },
            Statement::Delete { id } => StatementView::Delete { id: *id as int },
        }
    }
}

impl View for Param {
    type V = ParamView;

    open spec fn view(&self) -> ParamView {
        match self {
            Param::Int(number) => ParamView::Int(*number as int),
            Param::Text(content) => ParamView::Text(content@),
            Param::OptionalInt(number) => ParamView::OptionalInt(priority_view(*number)),
        }
    }
}

impl View for Outcome {
    type V = OutcomeView;

    open spec fn view(&self) -> OutcomeView {
        match self {
            Outcome::Rows(rows) => OutcomeView::Rows(rows_view(rows@)),
            Outcome::Created(id) => OutcomeView::Created(*id as int),
            Outcome::Done => OutcomeView::Done,
            Outcome::Failed(description) => OutcomeView::Failed(description@),
        }
    }
}

/// The parameters as mathematical values, one by one.
pub open spec fn params_view(params: Seq<Param>) -> Seq<ParamView> {
    params.map_values(|param: Param| param@)
}

impl StatementView {
    /// The SQL text of the statement.
    pub open spec fn sql(self) -> Seq<char> {
        match self {
            StatementView::SelectAll => "SELECT * FROM tasks ORDER BY id DESC"@,
            StatementView::SelectById { .. } => "SELECT * FROM tasks WHERE id = $1"@,
            StatementView::Insert { .. } =>
                "INSERT INTO tasks (name, priority) VALUES ($1, $2) RETURNING id"@,
            StatementView::Update { .. } =>
                "UPDATE tasks SET name = $2, priority = $3 WHERE id = $1"@,
            StatementView::Delete { .. } => "DELETE FROM tasks WHERE id = $1"@,
        }
    }

    /// What the statement asks storage to hand back.
    pub open spec fn answer(self) -> Answer {
        match self {
            StatementView::SelectAll => Answer::Rows,
            StatementView::SelectById { .. } => Answer::Rows,
            StatementView::Insert { .. } => Answer::NewId,
            StatementView::Update { .. } => Answer::Nothing,
            StatementView::Delete { .. } => Answer::Nothing,
        }
    }

    /// The parameters of the statement: `$1` first.
    pub open spec fn params(self) -> Seq<ParamView> {
        match self {
            StatementView::SelectAll => seq![],
            StatementView::SelectById { id } => seq![ParamView::Int(id)],
            StatementView::Insert { fields } => seq![
                ParamView::Text(fields.name),
                ParamView::OptionalInt(fields.priority),
            ],
            StatementView::Update { id, fields } => seq![
                ParamView::Int(id),
                ParamView::Text(fields.name),
                ParamView::OptionalInt(fields.priority),
            ],
            StatementView::Delete { id } => seq![ParamView::Int(id)],
        }
    }
}

impl Statement {
    /// The SQL text of the statement.
    pub fn sql(&self) -> (text: &'static str)
        ensures
            text@ == self@.sql(),
    {
        match self {
            Statement::SelectAll => "SELECT * FROM tasks ORDER BY id DESC",
            Statement::SelectById { .. } => "SELECT * FROM tasks WHERE id = $1",
            Statement::Insert { .. } =>
                "INSERT INTO tasks (name, priority) VALUES ($1, $2) RETURNING id",
            Statement::Update { .. } => "UPDATE tasks SET name = $2, priority = $3 WHERE id = $1",
            Statement::Delete { .. } => "DELETE FROM tasks WHERE id = $1",
        }
    }

    /// What to ask storage for when the statement is run.
    pub fn answer(&self) -> (answer: Answer)
        ensures
            answer == self@.answer(),
    {
        match self {
            Statement::SelectAll => Answer::Rows,
            Statement::SelectById { .. } => Answer::Rows,
            Statement::Insert { .. } => Answer::NewId,
            Statement::Update { .. } => Answer::Nothing,
            Statement::Delete { .. } => Answer::Nothing,
        }
    }

    /// The parameters to bind, in the order of their numbers: `$1` first.
    pub fn params(&self) -> (params: Vec<Param>)
        ensures
            params_view(params@) == self@.params(),
    {
        let mut params: Vec<Param> = Vec::new();
        match self {
            Statement::SelectAll => {},
            Statement::SelectById { id } => {
                params.push(Param::Int(*id));
            },
            Statement::Insert { fields } => {
                params.push(Param::Text(fields.name.clone()));
                params.push(Param::OptionalInt(fields.priority));
            },
            Statement::Update { id, fields } => {
                params.push(Param::Int(*id));
                params.push(Param::Text(fields.name.clone()));
                params.push(Param::OptionalInt(fields.priority));
            },
            Statement::Delete { id } => {
                params.push(Param::Int(*id));
            },
        }
        params
    }
}

} // verus!
