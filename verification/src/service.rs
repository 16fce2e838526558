//! The service, as two decisions around one call of storage.
//!
//! [`plan`] takes a request and decides at once: a reply, for the greeting
//! and for every request that is refused, or the statement to run.
//! [`respond`] takes what storage answered and makes the response. Whoever
//! holds the connection runs the statement in between; nothing here waits.

use vstd::prelude::*;
use crate::envelope::{
    created_reply, created_response, done_reply, done_response, failure_reply, failure_response,
    greeting_reply, greeting_response, tasks_reply, tasks_response, Response, ResponseView,
    STATUS_STORAGE_FAILURE,
};
use crate::request::{fields_from, read_fields};
use crate::route::{route, route_of, Method, Route};
use crate::statement::{Outcome, OutcomeView, Statement, StatementView};

verus! {

/// What to do with a request.
#[derive(Debug, Clone, PartialEq, Eq)]
pub enum Step {
    /// Answer at once; storage is not touched.
    Reply(Response),
    /// Run the statement, then answer with [`respond`].
    Run(Statement),
}

/// A step as a mathematical value.
pub enum StepView {
    Reply(ResponseView),
    Run(StatementView),
}

impl View for Step {
    type V = StepView;

    open spec fn view(&self) -> StepView {
        match self {
            Step::Reply(response) => StepView::Reply(response@),
            Step::Run(statement) => StepView::Run(statement@),
        }
    }
}

/// The step for a write: an update where an id is given, else an insert,
/// with the fields in the body; or the refusal of a body that gives none.
pub open spec fn planned_write(body: Seq<u8>, id: Option<int>) -> StepView {
    match fields_from(body) {
        Ok(fields) => StepView::Run(
            match id {
                Some(id) => StatementView::Update { id, fields },
                None => StatementView::Insert { fields },
            },
        ),
        Err(error) => StepView::Reply(failure_reply(error.status(), error.message())),
    }
}

/// The step for a request. The body is looked at for a create and an update
/// only, and only after the route is settled.
pub open spec fn planned(method: Method, path: Seq<u8>, body: Seq<u8>) -> StepView {
    match route_of(method, path) {
        Err(error) => StepView::Reply(failure_reply(error.status_of(), error.message_of())),
        Ok(Route::Greeting) => StepView::Reply(greeting_reply()),
        Ok(Route::ListTasks) => StepView::Run(StatementView::SelectAll),
        Ok(Route::GetTask { id }) => StepView::Run(StatementView::SelectById { id: id as int }),
        Ok(Route::DeleteTask { id }) => StepView::Run(StatementView::Delete { id: id as int }),
        Ok(Route::CreateTask) => planned_write(body, None),
        Ok(Route::UpdateTask { id }) => planned_write(body, Some(id as int)),
    }
}

/// The response to an answer of storage: 200 with the rows of a select, 201
/// with the id of an insert, 200 with the bare flag for an update or a
/// delete, and 500 with the description of a failure.
pub open spec fn reply_of(outcome: OutcomeView) -> ResponseView {
    match outcome {
        OutcomeView::Rows(rows) => tasks_reply(rows),
        OutcomeView::Created(id) => created_reply(id),
        OutcomeView::Done => done_reply(),
        OutcomeView::Failed(description) => failure_reply(
            STATUS_STORAGE_FAILURE as int,
            description,
        ),
    }
}

/// Decides what to do with a request: the statement to run, or the reply to
/// give at once. A request is refused before storage is reached where the
/// path has no route (404), the route does not take the method (405), the id
/// in the path is no integer (400), or the body of a create or an update is
/// no JSON (400) or gives no task fields (422).
pub fn plan(method: Method, path: &[u8], body: &[u8]) -> (step: Step)
    ensures
        step@ == planned(method, path@, body@),
{
    match route(method, path) {
        Err(error) => Step::Reply(failure_response(error.status(), error.message())),
        Ok(Route::Greeting) => Step::Reply(greeting_response()),
        Ok(Route::ListTasks) => Step::Run(Statement::SelectAll),
        Ok(Route::GetTask { id }) => Step::Run(Statement::SelectById { id }),
        Ok(Route::DeleteTask { id }) => Step::Run(Statement::Delete { id }),
        Ok(Route::CreateTask) => match read_fields(body) {
            Ok(fields) => Step::Run(Statement::Insert { fields }),
            Err(error) => Step::Reply(failure_response(error.status(), error.message())),
        },
        Ok(Route::UpdateTask { id }) => match read_fields(body) {
            Ok(fields) => Step::Run(Statement::Update { id, fields }),
            Err(error) => Step::Reply(failure_response(error.status(), error.message())),
        },
    }
}

/// Makes the response to what storage answered. An update or a delete is
/// reported as done whether or not a row had the id; a select that found no
/// row is a success with an empty array.
pub fn respond(outcome: Outcome) -> (response: Response)
    ensures
        response@ == reply_of(outcome@),
{
    match outcome {
        Outcome::Rows(rows) => tasks_response(&rows),
        Outcome::Created(id) => created_response(id),
        Outcome::Done => done_response(),
        Outcome::Failed(description) => failure_response(STATUS_STORAGE_FAILURE, description),
    }
}

} // verus!
