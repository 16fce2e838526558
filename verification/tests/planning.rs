use task_api::envelope::Response;
use task_api::route::{Method, RouteError};
use task_api::service::{plan, Step};
use task_api::statement::Statement;
use task_api::task::TaskFields;

fn fields(name: &str, priority: Option<i32>) -> TaskFields {
    TaskFields { name: name.to_string(), priority }
}

fn refusal(status: u16, message: &str) -> Step {
    let mut members = serde_json::Map::new();
    members.insert("success".to_string(), serde_json::Value::Bool(false));
    members.insert("message".to_string(), serde_json::Value::from(message));
    Step::Reply(Response { status, body: serde_json::Value::Object(members).to_string() })
}

#[test]
fn greeting_is_answered_at_once() {
    assert_eq!(
        plan(Method::Get, b"/", b""),
        Step::Reply(Response { status: 200, body: "Hello World".to_string() })
    );
}

#[test]
fn list_plans_a_select_of_all() {
    assert_eq!(plan(Method::Get, b"/api/tasks", b""), Step::Run(Statement::SelectAll));
}

#[test]
fn list_does_not_look_at_the_body() {
    assert_eq!(plan(Method::Get, b"/api/tasks", b"{not json"), Step::Run(Statement::SelectAll));
}

#[test]
fn get_plans_a_select_by_id() {
    assert_eq!(plan(Method::Get, b"/api/tasks/12", b""), Step::Run(Statement::SelectById { id: 12 }));
}

#[test]
fn delete_plans_a_delete() {
    assert_eq!(plan(Method::Delete, b"/api/tasks/12", b""), Step::Run(Statement::Delete { id: 12 }));
}

#[test]
fn create_plans_an_insert() {
    assert_eq!(
        plan(Method::Post, b"/api/tasks", b"{\"name\":\"n\",\"priority\":5}"),
        Step::Run(Statement::Insert { fields: fields("n", Some(5)) })
    );
}

#[test]
fn update_plans_a_full_replace() {
    assert_eq!(
        plan(Method::Patch, b"/api/tasks/3", b"{\"name\":\"m\"}"),
        Step::Run(Statement::Update { id: 3, fields: fields("m", None) })
    );
}

#[test]
fn unknown_path_is_refused_with_404() {
    assert_eq!(plan(Method::Get, b"/api/tasks/", b""), refusal(404, "no such route"));
    assert_eq!(plan(Method::Post, b"/elsewhere", b"{\"name\":\"n\"}"), refusal(404, "no such route"));
}

#[test]
fn unknown_method_is_refused_with_405() {
    assert_eq!(plan(Method::Delete, b"/api/tasks", b""), refusal(405, "method not allowed"));
    assert_eq!(plan(Method::Post, b"/api/tasks/1", b"{\"name\":\"n\"}"), refusal(405, "method not allowed"));
}

#[test]
fn bad_id_is_refused_with_400() {
    assert_eq!(
        plan(Method::Get, b"/api/tasks/abc", b""),
        refusal(400, "task id is not a 32-bit integer")
    );
    assert_eq!(
        plan(Method::Patch, b"/api/tasks/abc", b"{\"name\":\"n\"}"),
        refusal(400, "task id is not a 32-bit integer")
    );
}

#[test]
fn bad_id_is_refused_before_the_body_is_read() {
    assert_eq!(
        plan(Method::Patch, b"/api/tasks/abc", b"{not json"),
        refusal(400, "task id is not a 32-bit integer")
    );
}

#[test]
fn malformed_body_is_refused_with_400() {
    assert_eq!(
        plan(Method::Post, b"/api/tasks", b"{\"name\": }"),
        refusal(400, "expected value at line 1 column 10")
    );
    assert_eq!(
        plan(Method::Patch, b"/api/tasks/1", b""),
        refusal(400, "EOF while parsing a value at line 1 column 0")
    );
}

#[test]
fn body_of_another_shape_is_refused_with_422() {
    assert_eq!(plan(Method::Post, b"/api/tasks", b"{}"), refusal(422, "missing field `name`"));
    assert_eq!(
        plan(Method::Post, b"/api/tasks", b"{\"name\":7}"),
        refusal(422, "field `name` is not a string")
    );
    assert_eq!(
        plan(Method::Patch, b"/api/tasks/1", b"{\"name\":\"n\",\"priority\":\"high\"}"),
        refusal(422, "field `priority` is not a 32-bit integer")
    );
}

#[test]
fn route_errors_have_a_status_and_a_message() {
    assert_eq!(RouteError::NotFound.status(), 404);
    assert_eq!(RouteError::NotFound.message(), "no such route");
    assert_eq!(RouteError::MethodNotAllowed.status(), 405);
    assert_eq!(RouteError::MethodNotAllowed.message(), "method not allowed");
    assert_eq!(RouteError::BadId.status(), 400);
    assert_eq!(RouteError::BadId.message(), "task id is not a 32-bit integer");
}
