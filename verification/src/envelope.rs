//! Responses and the envelope that wraps every JSON body.
//!
//! A success carries `success: true` and, where there is something to hand
//! back, `data`; a failure carries `success: false` and `message`. A body is
//! the text that `serde_json` writes for the envelope, so the contracts here
//! name it by [`json_text`] of the document they spell out.

use vstd::prelude::*;
use crate::json::{boolean, integer, list, new_members, null, object, put, render, text};
use crate::json::{docs_of, json_of, json_text, no_members, JsonDoc};
use crate::task::{TaskRow, TaskView};

verus! {

/// 200: the request was carried out.
pub const STATUS_OK: u16 = 200;

/// 201: a task was created.
pub const STATUS_CREATED: u16 = 201;

/// 400: the id in the path is no integer, or the body is no JSON text.
pub const STATUS_BAD_REQUEST: u16 = 400;

/// 404: no route has the path.
pub const STATUS_NOT_FOUND: u16 = 404;

/// 405: the path has no route with the method.
pub const STATUS_METHOD_NOT_ALLOWED: u16 = 405;

/// 422: the body is JSON, but not of the shape asked for.
pub const STATUS_UNPROCESSABLE: u16 = 422;

/// 500: storage failed.
pub const STATUS_STORAGE_FAILURE: u16 = 500;

/// A status code and a body.
#[derive(Debug, Clone, PartialEq, Eq)]
pub struct Response {
    pub status: u16,
    pub body: String,
}

/// A response as a mathematical value.
pub struct ResponseView {
    pub status: int,
    pub body: Seq<char>,
}

impl View for Response {
    type V = ResponseView;

    open spec fn view(&self) -> ResponseView {
        ResponseView { status: self.status as int, body: self.body@ }
    }
}

/// The stored tasks as mathematical values, one by one.
pub open spec fn rows_view(rows: Seq<TaskRow>) -> Seq<TaskView> {
    rows.map_values(|row: TaskRow| row@)
}

/// A priority on the wire: its number, or `null` where there is none.
pub open spec fn priority_doc(priority: Option<int>) -> JsonDoc {
    match priority {
        Some(level) => JsonDoc::Integer(level),
        None => JsonDoc::Null,
    }
}

/// A task on the wire: `{id, name, priority}`.
pub open spec fn task_doc(task: TaskView) -> JsonDoc {
    JsonDoc::Record(
        no_members().insert("id"@, JsonDoc::Integer(task.id)).insert(
            "name"@,
            JsonDoc::Text(task.name),
        ).insert("priority"@, priority_doc(task.priority)),
    )
}

/// Tasks on the wire: an array, in the order given.
pub open spec fn tasks_doc(tasks: Seq<TaskView>) -> JsonDoc {
    JsonDoc::List(tasks.map_values(|task: TaskView| task_doc(task)))
}

/// What a creation hands back: `{id}`.
pub open spec fn created_doc(id: int) -> JsonDoc {
    JsonDoc::Record(no_members().insert("id"@, JsonDoc::Integer(id)))
}

/// The envelope of a success with something to hand back.
pub open spec fn success_doc(data: JsonDoc) -> JsonDoc {
    JsonDoc::Record(no_members().insert("success"@, JsonDoc::Bool(true)).insert("data"@, data))
}

/// The envelope of a success with nothing to hand back: no `data` at all.
pub open spec fn done_doc() -> JsonDoc {
    JsonDoc::Record(no_members().insert("success"@, JsonDoc::Bool(true)))
}

/// The envelope of a failure: the message as it came, untouched.
pub open spec fn failure_doc(message: Seq<char>) -> JsonDoc {
    JsonDoc::Record(
        no_members().insert("success"@, JsonDoc::Bool(false)).insert(
            "message"@,
            JsonDoc::Text(message),
        ),
    )
}

/// The response with a status and the text of a document as its body.
pub open spec fn json_response(status: int, doc: JsonDoc) -> ResponseView {
    ResponseView { status, body: json_text(doc) }
}

/// The response to a read: 200, and the tasks in the order given.
pub open spec fn tasks_reply(tasks: Seq<TaskView>) -> ResponseView {
    json_response(STATUS_OK as int, success_doc(tasks_doc(tasks)))
}

/// The response to a creation: 201, and the new id.
pub open spec fn created_reply(id: int) -> ResponseView {
    json_response(STATUS_CREATED as int, success_doc(created_doc(id)))
}

/// The response to an update or a deletion: 200, and nothing but the flag.
pub open spec fn done_reply() -> ResponseView {
    json_response(STATUS_OK as int, done_doc())
}

/// The response to a failure: the status, and the message in the envelope.
pub open spec fn failure_reply(status: int, message: Seq<char>) -> ResponseView {
    json_response(status, failure_doc(message))
}

/// The greeting at the root: 200 and plain text.
pub open spec fn greeting_reply() -> ResponseView {
    ResponseView { status: STATUS_OK as int, body: "Hello World"@ }
}

fn priority_value(priority: Option<i32>) -> (value: serde_json::Value)
    ensures
        json_of(value) == priority_doc(crate::task::priority_view(priority)),
{
    match priority {
        Some(level) => integer(level),
        None => null(),
    }
}

fn task_value(row: &TaskRow) -> (value: serde_json::Value)
    ensures
        json_of(value) == task_doc(row@),
{
    let mut members = new_members();
    put(&mut members, "id", integer(row.id));
    put(&mut members, "name", text(row.name.clone()));
    put(&mut members, "priority", priority_value(row.priority));
    object(members)
}

fn tasks_value(rows: &Vec<TaskRow>) -> (value: serde_json::Value)
    ensures
        json_of(value) == tasks_doc(rows_view(rows@)),
{
    let mut items: Vec<serde_json::Value> = Vec::new();
    let mut at: usize = 0;
    while at < rows.len()
        invariant
            at <= rows.len(),
            items.len() == at,
            forall|i: int| 0 <= i < at ==> json_of(#[trigger] items@[i]) == task_doc(rows@[i]@),
        decreases rows.len() - at,
    {
        items.push(task_value(&rows[at]));
        at += 1;
    }
    proof {
        assert(docs_of(items@) =~= rows_view(rows@).map_values(|task: TaskView| task_doc(task)));
    }
    list(items)
}

fn success_value(data: serde_json::Value) -> (value: serde_json::Value)
    ensures
        json_of(value) == success_doc(json_of(data)),
{
    let mut members = new_members();
    put(&mut members, "success", boolean(true));
    put(&mut members, "data", data);
    object(members)
}

/// The response to a read of tasks: status 200 and the rows under `data`, in
/// the order given. No row gives an empty array, not an error.
pub fn tasks_response(rows: &Vec<TaskRow>) -> (response: Response)
    ensures
        response@ == tasks_reply(rows_view(rows@)),
{
    let envelope = success_value(tasks_value(rows));
    Response { status: STATUS_OK, body: render(&envelope) }
}

/// The response to a creation: status 201 and the id that storage assigned,
/// as `{id}` under `data`.
pub fn created_response(id: i32) -> (response: Response)
    ensures
        response@ == created_reply(id as int),
{
    let mut members = new_members();
    put(&mut members, "id", integer(id));
    let envelope = success_value(object(members));
    Response { status: STATUS_CREATED, body: render(&envelope) }
}

/// The response to an update or a deletion that storage carried out: status
/// 200 and `success: true` alone, whether or not a row was touched.
pub fn done_response() -> (response: Response)
    ensures
        response@ == done_reply(),
{
    let mut members = new_members();
    put(&mut members, "success", boolean(true));
    let envelope = object(members);
    Response { status: STATUS_OK, body: render(&envelope) }
}

/// The response to a failure: the status given, and the message verbatim
/// under `message`.
pub fn failure_response(status: u16, message: String) -> (response: Response)
    ensures
        response@ == failure_reply(status as int, message@),
{
    let mut members = new_members();
    put(&mut members, "success", boolean(false));
    put(&mut members, "message", text(message));
    let envelope = object(members);
    Response { status, body: render(&envelope) }
}

/// The greeting at the root: status 200 and the plain text `Hello World`.
pub fn greeting_response() -> (response: Response)
    ensures
        response@ == greeting_reply(),
{
    Response { status: STATUS_OK, body: "Hello World".to_owned() }
}

} // verus!
