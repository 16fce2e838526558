//! The body of a create or update request: `{name, priority?}`.
//!
//! The body is parsed as JSON by `serde_json`; what is read from the parsed
//! value is decided here. `name` must be a string. `priority` may be missing
//! or `null`, which both mean no priority, or an integer of 32 signed bits.
//! Other members are ignored.

use vstd::prelude::*;
use crate::envelope::{STATUS_BAD_REQUEST, STATUS_UNPROCESSABLE};
use crate::json::{as_integer, as_text, is_null, member, parse};
use crate::json::{json_of, member_of, parsed, JsonDoc};
use crate::task::{FieldsView, TaskFields};

verus! {

/// Why a body gives no task fields.
#[derive(Debug, Clone, PartialEq, Eq)]
pub enum DecodeError {
    /// The body is no JSON text; the parser's complaint is kept as it came.
    Syntax(String),
    /// The body is no object, or an object without `name`.
    MissingName,
    /// `name` is not a string.
    NameNotText,
    /// `priority` is neither missing, `null`, nor an integer of 32 bits.
    BadPriority,
}

/// A decoding error as a mathematical value.
pub enum DecodeErrorView {
    Syntax(Seq<char>),
    MissingName,
    NameNotText,
    BadPriority,
}

impl View for DecodeError {
    type V = DecodeErrorView;

    open spec fn view(&self) -> DecodeErrorView {
        match self {
            DecodeError::Syntax(complaint) => DecodeErrorView::Syntax(complaint@),
            DecodeError::MissingName => DecodeErrorView::MissingName,
            DecodeError::NameNotText => DecodeErrorView::NameNotText,
            DecodeError::BadPriority => DecodeErrorView::BadPriority,
        }
    }
}

impl DecodeErrorView {
    /// The status that reports the error: 400 for a body that is no JSON,
    /// 422 for JSON of another shape.
    pub open spec fn status(self) -> int {
        match self {
            DecodeErrorView::Syntax(_) => STATUS_BAD_REQUEST as int,
            _ => STATUS_UNPROCESSABLE as int,
        }
    }

    /// The message that reports the error.
    pub open spec fn message(self) -> Seq<char> {
        match self {
            DecodeErrorView::Syntax(complaint) => complaint,
            DecodeErrorView::MissingName => "missing field `name`"@,
            DecodeErrorView::NameNotText => "field `name` is not a string"@,
            DecodeErrorView::BadPriority => "field `priority` is not a 32-bit integer"@,
        }
    }
}

/// The priority that a document gives: none where the member is missing or
/// `null`, the number where it is an integer of 32 signed bits.
pub open spec fn priority_of(doc: JsonDoc) -> Result<Option<int>, DecodeErrorView> {
    match member_of(doc, "priority"@) {
        None => Ok(None),
        Some(JsonDoc::Null) => Ok(None),
        Some(JsonDoc::Integer(level)) => if i32::MIN <= level <= i32::MAX {
            Ok(Some(level))
        } else {
            Err(DecodeErrorView::BadPriority)
        },
        Some(_) => Err(DecodeErrorView::BadPriority),
    }
}

/// The task fields that a document gives. `name` is looked at first.
pub open spec fn fields_of(doc: JsonDoc) -> Result<FieldsView, DecodeErrorView> {
    match member_of(doc, "name"@) {
        None => Err(DecodeErrorView::MissingName),
        Some(JsonDoc::Text(name)) => match priority_of(doc) {
            Ok(priority) => Ok(FieldsView { name, priority }),
            Err(error) => Err(error),
        },
        Some(_) => Err(DecodeErrorView::NameNotText),
    }
}

/// The task fields that the bytes of a body give.
pub open spec fn fields_from(body: Seq<u8>) -> Result<FieldsView, DecodeErrorView> {
    match parsed(body) {
        Ok(doc) => fields_of(doc),
        Err(complaint) => Err(DecodeErrorView::Syntax(complaint)),
    }
}

impl DecodeError {
    /// The status that reports the error.
    pub fn status(&self) -> (status: u16)
        ensures
            status == self@.status(),
    {
        match self {
            DecodeError::Syntax(_) => STATUS_BAD_REQUEST,
            _ => STATUS_UNPROCESSABLE,
        }
    }

    /// The message that reports the error.
    pub fn message(self) -> (message: String)
        ensures
            message@ == self@.message(),
    {
        match self {
            DecodeError::Syntax(complaint) => complaint,
            DecodeError::MissingName => "missing field `name`".to_owned(),
            DecodeError::NameNotText => "field `name` is not a string".to_owned(),
            DecodeError::BadPriority => "field `priority` is not a 32-bit integer".to_owned(),
        }
    }
}

fn decode_priority(value: &serde_json::Value) -> (priority: Result<Option<i32>, DecodeError>)
    ensures
        match priority {
            Ok(level) => priority_of(json_of(*value)) == Ok::<Option<int>, DecodeErrorView>(
                crate::task::priority_view(level),
            ),
            Err(error) => priority_of(json_of(*value)) == Err::<Option<int>, DecodeErrorView>(
                error@,
            ),
        },
{
    match member(value, "priority") {
        None => Ok(None),
        Some(inner) => {
            if is_null(inner) {
                Ok(None)
            } else {
                match as_integer(inner) {
                    Some(level) => {
                        if -2147483648 <= level && level <= 2147483647 {
                            Ok(Some(level as i32))
                        } else {
                            Err(DecodeError::BadPriority)
                        }
                    },
                    None => Err(DecodeError::BadPriority),
                }
            }
        },
    }
}

/// Reads the task fields from a parsed body. `Ok` exactly where the value is
/// an object whose `name` is a string and whose `priority` is missing, `null`
/// or an integer of 32 bits; otherwise the first of the errors, `name` before
/// `priority`.
pub fn decode_fields(value: &serde_json::Value) -> (decoded: Result<TaskFields, DecodeError>)
    ensures
        match decoded {
            Ok(fields) => fields_of(json_of(*value)) == Ok::<FieldsView, DecodeErrorView>(fields@),
            Err(error) => fields_of(json_of(*value)) == Err::<FieldsView, DecodeErrorView>(error@),
        },
{
    match member(value, "name") {
        None => Err(DecodeError::MissingName),
        Some(inner) => match as_text(inner) {
            None => Err(DecodeError::NameNotText),
            Some(name) => match decode_priority(value) {
                Ok(priority) => Ok(TaskFields { name: name.to_owned(), priority }),
                Err(error) => Err(error),
            },
        },
    }
}

/// Reads the task fields from the bytes of a body: parses them as JSON, then
/// decodes the value. A body that is no JSON gives `Syntax` with the parser's
/// complaint.
pub fn read_fields(body: &[u8]) -> (decoded: Result<TaskFields, DecodeError>)
    ensures
        match decoded {
            Ok(fields) => fields_from(body@) == Ok::<FieldsView, DecodeErrorView>(fields@),
            Err(error) => fields_from(body@) == Err::<FieldsView, DecodeErrorView>(error@),
        },
{
    match parse(body) {
        Ok(value) => decode_fields(&value),
        Err(complaint) => Err(DecodeError::Syntax(complaint)),
    }
}

} // verus!
