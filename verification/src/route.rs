//! The route table: from a method and a path to one of the six operations.
//!
//! A path is taken as the bytes of the request target before any `?`, with no
//! decoding. The id of a task is one path segment, written as a signed
//! decimal integer of 32 bits: an optional `+` or `-`, then digits.

use vstd::prelude::*;
use vstd::string::StringSliceAdditionalSpecFns;
use crate::envelope::{STATUS_BAD_REQUEST, STATUS_METHOD_NOT_ALLOWED, STATUS_NOT_FOUND};

verus! {

/// The method of a request. Methods that no route takes are `Other`.
#[derive(Debug, Clone, Copy, PartialEq, Eq)]
pub enum Method {
    Get,
    Post,
    Patch,
    Delete,
    Other,
}

/// The operation that a request asks for.
#[derive(Debug, Clone, Copy, PartialEq, Eq)]
pub enum Route {
    /// `GET /`
    Greeting,
    /// `GET /api/tasks`
    ListTasks,
    /// `POST /api/tasks`
    CreateTask,
    /// `GET /api/tasks/{id}`
    GetTask { id: i32 },
    /// `PATCH /api/tasks/{id}`
    UpdateTask { id: i32 },
    /// `DELETE /api/tasks/{id}`
    DeleteTask { id: i32 },
}

/// Why a request reaches no operation.
#[derive(Debug, Clone, Copy, PartialEq, Eq)]
pub enum RouteError {
    /// No route has this path.
    NotFound,
    /// A route has this path, but not with this method.
    MethodNotAllowed,
    /// The path and the method are those of a task, and the id is no integer
    /// of 32 bits.
    BadId,
}

impl RouteError {
    /// The status that reports the error: 404, 405, or 400 for a bad id.
    pub open spec fn status_of(self) -> int {
        match self {
            RouteError::NotFound => STATUS_NOT_FOUND as int,
            RouteError::MethodNotAllowed => STATUS_METHOD_NOT_ALLOWED as int,
            RouteError::BadId => STATUS_BAD_REQUEST as int,
        }
    }

    /// The message that reports the error.
    pub open spec fn message_of(self) -> Seq<char> {
        match self {
            RouteError::NotFound => "no such route"@,
            RouteError::MethodNotAllowed => "method not allowed"@,
            RouteError::BadId => "task id is not a 32-bit integer"@,
        }
    }

    /// The status that reports the error.
    pub fn status(&self) -> (status: u16)
        ensures
            status == self.status_of(),
    {
        match self {
            RouteError::NotFound => STATUS_NOT_FOUND,
            RouteError::MethodNotAllowed => STATUS_METHOD_NOT_ALLOWED,
            RouteError::BadId => STATUS_BAD_REQUEST,
        }
    }

    /// The message that reports the error.
    pub fn message(&self) -> (message: String)
        ensures
            message@ == self.message_of(),
    {
        match self {
            RouteError::NotFound => "no such route".to_owned(),
            RouteError::MethodNotAllowed => "method not allowed".to_owned(),
            RouteError::BadId => "task id is not a 32-bit integer".to_owned(),
        }
    }
}

/// The bytes of a text of ASCII characters.
pub open spec fn bytes_of(text: Seq<char>) -> Seq<u8> {
    text.map_values(|c: char| c as u8)
}

/// `/`
pub open spec fn root_path() -> Seq<u8> {
    bytes_of("/"@)
}

/// `/api/tasks`
pub open spec fn collection_path() -> Seq<u8> {
    bytes_of("/api/tasks"@)
}

/// `/api/tasks/`, which the id of a task follows.
pub open spec fn item_prefix() -> Seq<u8> {
    bytes_of("/api/tasks/"@)
}

/// Whether a byte is one of `0` to `9`.
pub open spec fn is_digit(byte: u8) -> bool {
    '0' as u8 <= byte <= '9' as u8
}

/// Whether every byte is a digit.
pub open spec fn all_digits(bytes: Seq<u8>) -> bool {
    forall|i: int| 0 <= i < bytes.len() ==> is_digit(#[trigger] bytes[i])
}

/// The number that decimal digits write, the last digit counting least.
pub open spec fn digits_value(digits: Seq<u8>) -> int
    decreases digits.len(),
{
    if digits.len() == 0 {
        0
    } else {
        10 * digits_value(digits.drop_last()) + (digits.last() - '0' as u8)
    }
}

/// Whether a text starts with a sign.
pub open spec fn has_sign(text: Seq<u8>) -> bool {
    text.len() > 0 && (text[0] == '-' as u8 || text[0] == '+' as u8)
}

/// The id that a path segment writes: an optional sign, then at least one
/// digit and nothing else, the number within 32 signed bits. Leading zeros
/// count for nothing.
pub open spec fn id_of(segment: Seq<u8>) -> Option<i32> {
    let digits = if has_sign(segment) {
        segment.skip(1)
    } else {
        segment
    };
    let value = if has_sign(segment) && segment[0] == '-' as u8 {
        -digits_value(digits)
    } else {
        digits_value(digits)
    };
    if digits.len() > 0 && all_digits(digits) && i32::MIN <= value <= i32::MAX {
        Some(value as i32)
    } else {
        None
    }
}

/// The segment behind `/api/tasks/`, where the path has that prefix and
/// exactly one segment behind it, which is not empty.
pub open spec fn item_segment(path: Seq<u8>) -> Option<Seq<u8>> {
    let start = item_prefix().len() as int;
    if path.len() > start && path.take(start) == item_prefix() && !path.skip(start).contains(
        '/' as u8,
    ) {
        Some(path.skip(start))
    } else {
        None
    }
}

/// The operation on one task that a method asks for.
pub open spec fn item_route(method: Method, id: i32) -> Option<Route> {
    match method {
        Method::Get => Some(Route::GetTask { id }),
        Method::Patch => Some(Route::UpdateTask { id }),
        Method::Delete => Some(Route::DeleteTask { id }),
        _ => None,
    }
}

/// The route table. The path is settled first, then the method, and the id
/// last: an unknown path is `NotFound` whatever the method, and a bad id
/// shows only under a method that the path takes.
pub open spec fn route_of(method: Method, path: Seq<u8>) -> Result<Route, RouteError> {
    if path == root_path() {
        match method {
            Method::Get => Ok(Route::Greeting),
            _ => Err(RouteError::MethodNotAllowed),
        }
    } else if path == collection_path() {
        match method {
            Method::Get => Ok(Route::ListTasks),
            Method::Post => Ok(Route::CreateTask),
            _ => Err(RouteError::MethodNotAllowed),
        }
    } else {
        match item_segment(path) {
            None => Err(RouteError::NotFound),
            Some(segment) => if item_route(method, 0) is None {
                Err(RouteError::MethodNotAllowed)
            } else {
                match id_of(segment) {
                    Some(id) => Ok(item_route(method, id)->0),
                    None => Err(RouteError::BadId),
                }
            },
        }
    }
}

/// A prefix of digits writes no more than the whole.
proof fn lemma_digits_value_grows(digits: Seq<u8>, k: int)
    requires
        all_digits(digits),
        0 <= k <= digits.len(),
    ensures
        0 <= digits_value(digits.take(k)) <= digits_value(digits),
    decreases digits.len(),
{
    if k == digits.len() {
        assert(digits.take(k) =~= digits);
        if k > 0 {
            lemma_digits_value_grows(digits.drop_last(), k - 1);
        }
    } else {
        lemma_digits_value_grows(digits.drop_last(), k);
        assert(digits.drop_last().take(k) =~= digits.take(k));
    }
}

/// The bytes of a literal.
fn literal_bytes(literal: &'static str) -> (bytes: &'static [u8])
    requires
        vstd::string::is_ascii(literal),
    ensures
        bytes@ == bytes_of(literal@),
{
    proof {
        vstd::string::is_ascii_spec_bytes(literal);
    }
    literal.as_bytes()
}

/// Whether a text has a given start.
fn starts_with(text: &[u8], start: &[u8]) -> (yes: bool)
    ensures
        yes == (start@.len() <= text@.len() && text@.take(start@.len() as int) == start@),
{
    if start.len() > text.len() {
        return false;
    }
    let mut at: usize = 0;
    while at < start.len()
        invariant
            at <= start.len() <= text.len(),
            text@.take(at as int) == start@.take(at as int),
        decreases start.len() - at,
    {
        if text[at] != start[at] {
            return false;
        }
        at += 1;
    }
    proof {
        assert(start@.take(start@.len() as int) =~= start@);
    }
    true
}

/// Whether a byte occurs in a text from a position on.
fn occurs_from(text: &[u8], from: usize, byte: u8) -> (yes: bool)
    requires
        from <= text@.len(),
    ensures
        yes == text@.skip(from as int).contains(byte),
{
    let mut at: usize = from;
    while at < text.len()
        invariant
            from <= at <= text.len(),
            forall|i: int| from <= i < at ==> text@[i] != byte,
        decreases text.len() - at,
    {
        if text[at] == byte {
            proof {
                assert(text@.skip(from as int)[at - from] == byte);
            }
            return true;
        }
        at += 1;
    }
    proof {
        assert forall|i: int| 0 <= i < text@.skip(from as int).len() implies text@.skip(
            from as int,
        )[i] != byte by {
            assert(text@.skip(from as int)[i] == text@[from + i]);
        }
    }
    false
}

/// Reads the id that a path segment writes, as `str::parse::<i32>` would: an
/// optional `+` or `-`, then at least one digit and nothing else. `None`
/// where the segment is written otherwise or the number leaves the 32 bits.
pub fn parse_id(segment: &[u8]) -> (id: Option<i32>)
    ensures
        id == id_of(segment@),
{
    let signed = segment.len() > 0 && (segment[0] == '-' as u8 || segment[0] == '+' as u8);
    let negative = signed && segment[0] == '-' as u8;
    let start: usize = if signed {
        1
    } else {
        0
    };
    let ghost digits = segment@.skip(start as int);
    if start == segment.len() {
        return None;
    }
    let mut total: i64 = 0;
    let mut at: usize = start;
    while at < segment.len()
        invariant
            start <= at <= segment.len(),
            start < segment.len(),
            start == (if has_sign(segment@) { 1usize } else { 0usize }),
            negative == (has_sign(segment@) && segment@[0] == '-' as u8),
            digits == segment@.skip(start as int),
            all_digits(digits.take(at - start)),
            total == digits_value(digits.take(at - start)),
            0 <= total <= 2147483648,
        decreases segment.len() - at,
    {
        let byte = segment[at];
        if byte < '0' as u8 || byte > '9' as u8 {
            proof {
                assert(digits[at - start] == byte);
            }
            return None;
        }
        let ghost before = digits.take(at - start);
        let ghost after = digits.take(at - start + 1);
        proof {
            assert(after.drop_last() =~= before);
            assert forall|i: int| 0 <= i < after.len() implies is_digit(#[trigger] after[i]) by {
                if i < before.len() {
                    assert(after[i] == before[i]);
                }
            }
        }
        total = total * 10 + (byte - '0' as u8) as i64;
        if total > 2147483648 {
            proof {
                assert(segment@.skip(0) =~= segment@);
                if all_digits(digits) {
                    lemma_digits_value_grows(digits, at - start + 1);
                }
            }
            return None;
        }
        at += 1;
    }
    proof {
        assert(digits.take(at - start) =~= digits);
        assert(segment@.skip(0) =~= segment@);
    }
    if negative {
        Some((-total) as i32)
    } else if total <= 2147483647 {
        Some(total as i32)
    } else {
        None
    }
}

/// Finds the operation that a method and a path ask for. An error says why
/// there is none; nothing is read or run on the way.
pub fn route(method: Method, path: &[u8]) -> (found: Result<Route, RouteError>)
    ensures
        found == route_of(method, path@),
{
    proof {
        reveal_strlit("/");
        reveal_strlit("/api/tasks");
        reveal_strlit("/api/tasks/");
    }
    let root = literal_bytes("/");
    let collection = literal_bytes("/api/tasks");
    let prefix = literal_bytes("/api/tasks/");
    if path.len() == root.len() && starts_with(path, root) {
        proof {
            assert(path@.take(path@.len() as int) =~= path@);
        }
        return match method {
            Method::Get => Ok(Route::Greeting),
            _ => Err(RouteError::MethodNotAllowed),
        };
    }
    if path.len() == collection.len() && starts_with(path, collection) {
        proof {
            assert(path@.take(path@.len() as int) =~= path@);
        }
        return match method {
            Method::Get => Ok(Route::ListTasks),
            Method::Post => Ok(Route::CreateTask),
            _ => Err(RouteError::MethodNotAllowed),
        };
    }
    proof {
        assert(path@.take(path@.len() as int) =~= path@);
    }
    if path.len() <= prefix.len() || !starts_with(path, prefix) || occurs_from(
        path,
        prefix.len(),
        '/' as u8,
    ) {
        return Err(RouteError::NotFound);
    }
    let segment = vstd::slice::slice_subrange(path, prefix.len(), path.len());
    match method {
        Method::Get => match parse_id(segment) {
            Some(id) => Ok(Route::GetTask { id }),
            None => Err(RouteError::BadId),
        },
        Method::Patch => match parse_id(segment) {
            Some(id) => Ok(Route::UpdateTask { id }),
            None => Err(RouteError::BadId),
        },
        Method::Delete => match parse_id(segment) {
            Some(id) => Ok(Route::DeleteTask { id }),
            None => Err(RouteError::BadId),
        },
        _ => Err(RouteError::MethodNotAllowed),
    }
}

} // verus!
