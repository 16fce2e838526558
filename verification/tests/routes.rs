use task_api::route::{parse_id, route, Method, Route, RouteError};

#[test]
fn root_greets_on_get_only() {
    assert_eq!(route(Method::Get, b"/"), Ok(Route::Greeting));
    assert_eq!(route(Method::Post, b"/"), Err(RouteError::MethodNotAllowed));
    assert_eq!(route(Method::Other, b"/"), Err(RouteError::MethodNotAllowed));
}

#[test]
fn collection_lists_and_creates() {
    assert_eq!(route(Method::Get, b"/api/tasks"), Ok(Route::ListTasks));
    assert_eq!(route(Method::Post, b"/api/tasks"), Ok(Route::CreateTask));
    assert_eq!(route(Method::Patch, b"/api/tasks"), Err(RouteError::MethodNotAllowed));
    assert_eq!(route(Method::Delete, b"/api/tasks"), Err(RouteError::MethodNotAllowed));
}

#[test]
fn item_reads_updates_and_deletes() {
    assert_eq!(route(Method::Get, b"/api/tasks/7"), Ok(Route::GetTask { id: 7 }));
    assert_eq!(route(Method::Patch, b"/api/tasks/7"), Ok(Route::UpdateTask { id: 7 }));
    assert_eq!(route(Method::Delete, b"/api/tasks/7"), Ok(Route::DeleteTask { id: 7 }));
    assert_eq!(route(Method::Post, b"/api/tasks/7"), Err(RouteError::MethodNotAllowed));
    assert_eq!(route(Method::Other, b"/api/tasks/7"), Err(RouteError::MethodNotAllowed));
}

#[test]
fn item_id_is_a_signed_integer() {
    assert_eq!(route(Method::Get, b"/api/tasks/-12"), Ok(Route::GetTask { id: -12 }));
    assert_eq!(route(Method::Get, b"/api/tasks/+12"), Ok(Route::GetTask { id: 12 }));
    assert_eq!(
        route(Method::Delete, b"/api/tasks/2147483647"),
        Ok(Route::DeleteTask { id: i32::MAX })
    );
    assert_eq!(
        route(Method::Delete, b"/api/tasks/-2147483648"),
        Ok(Route::DeleteTask { id: i32::MIN })
    );
}

#[test]
fn id_that_is_no_integer_is_a_bad_id() {
    assert_eq!(route(Method::Get, b"/api/tasks/abc"), Err(RouteError::BadId));
    assert_eq!(route(Method::Patch, b"/api/tasks/1.5"), Err(RouteError::BadId));
    assert_eq!(route(Method::Delete, b"/api/tasks/2147483648"), Err(RouteError::BadId));
    assert_eq!(route(Method::Get, b"/api/tasks/%31"), Err(RouteError::BadId));
    assert_eq!(route(Method::Get, "/api/tasks/\u{e9}".as_bytes()), Err(RouteError::BadId));
}

#[test]
fn method_is_settled_before_the_id() {
    assert_eq!(route(Method::Post, b"/api/tasks/abc"), Err(RouteError::MethodNotAllowed));
}

#[test]
fn other_paths_are_not_found() {
    assert_eq!(route(Method::Get, b""), Err(RouteError::NotFound));
    assert_eq!(route(Method::Get, b"/api"), Err(RouteError::NotFound));
    assert_eq!(route(Method::Get, b"/api/task"), Err(RouteError::NotFound));
    assert_eq!(route(Method::Get, b"/api/tasks/"), Err(RouteError::NotFound));
    assert_eq!(route(Method::Get, b"/api/tasks/1/"), Err(RouteError::NotFound));
    assert_eq!(route(Method::Get, b"/api/tasks/1/2"), Err(RouteError::NotFound));
    assert_eq!(route(Method::Get, b"/api/tasksx"), Err(RouteError::NotFound));
    assert_eq!(route(Method::Post, b"/nowhere"), Err(RouteError::NotFound));
    assert_eq!(route(Method::Get, b"//"), Err(RouteError::NotFound));
}

#[test]
fn parse_id_reads_plain_digits() {
    assert_eq!(parse_id(b"0"), Some(0));
    assert_eq!(parse_id(b"5"), Some(5));
    assert_eq!(parse_id(b"1234567890"), Some(1234567890));
}

#[test]
fn parse_id_takes_one_sign() {
    assert_eq!(parse_id(b"+5"), Some(5));
    assert_eq!(parse_id(b"-5"), Some(-5));
    assert_eq!(parse_id(b"-0"), Some(0));
    assert_eq!(parse_id(b"+-5"), None);
    assert_eq!(parse_id(b"--5"), None);
    assert_eq!(parse_id(b"5-"), None);
}

#[test]
fn parse_id_wants_a_digit() {
    assert_eq!(parse_id(b""), None);
    assert_eq!(parse_id(b"+"), None);
    assert_eq!(parse_id(b"-"), None);
}

#[test]
fn parse_id_takes_nothing_but_digits() {
    assert_eq!(parse_id(b"1a"), None);
    assert_eq!(parse_id(b" 1"), None);
    assert_eq!(parse_id(b"1 "), None);
    assert_eq!(parse_id(b"1.0"), None);
    assert_eq!(parse_id(b"0x10"), None);
    assert_eq!(parse_id(b"1_000"), None);
    assert_eq!(parse_id(b"/"), None);
    assert_eq!(parse_id(b":"), None);
}

#[test]
fn parse_id_keeps_within_32_bits() {
    assert_eq!(parse_id(b"2147483647"), Some(2147483647));
    assert_eq!(parse_id(b"2147483648"), None);
    assert_eq!(parse_id(b"-2147483648"), Some(-2147483648));
    assert_eq!(parse_id(b"-2147483649"), None);
    assert_eq!(parse_id(b"99999999999999999999999999"), None);
    assert_eq!(parse_id(b"-99999999999999999999999999"), None);
}

#[test]
fn parse_id_ignores_leading_zeros() {
    assert_eq!(parse_id(b"007"), Some(7));
    assert_eq!(parse_id(b"-000000000000000000000000000000012"), Some(-12));
    assert_eq!(parse_id(b"00000000000000000000002147483648"), None);
}

#[test]
fn parse_id_agrees_with_the_standard_parser() {
    let samples = [
        "", "+", "-", "0", "-0", "+0", "12", "-12", "+12", "2147483647", "2147483648",
        "-2147483648", "-2147483649", "0000", "1e3", "٣", "12 ", "1-2", "4294967296",
    ];
    for sample in samples {
        assert_eq!(parse_id(sample.as_bytes()), sample.parse::<i32>().ok(), "{:?}", sample);
    }
}
