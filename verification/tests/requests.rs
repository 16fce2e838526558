use task_api::request::{decode_fields, read_fields, DecodeError};
use task_api::task::TaskFields;

fn fields(name: &str, priority: Option<i32>) -> TaskFields {
    TaskFields { name: name.to_string(), priority }
}

#[test]
fn body_with_name_and_priority() {
    assert_eq!(read_fields(b"{\"name\":\"n\",\"priority\":5}"), Ok(fields("n", Some(5))));
}

#[test]
fn body_without_priority() {
    assert_eq!(read_fields(b"{\"name\":\"n\"}"), Ok(fields("n", None)));
}

#[test]
fn body_with_null_priority() {
    assert_eq!(read_fields(b"{\"name\":\"n\",\"priority\":null}"), Ok(fields("n", None)));
}

#[test]
fn body_with_zero_priority_keeps_the_zero() {
    assert_eq!(read_fields(b"{\"name\":\"n\",\"priority\":0}"), Ok(fields("n", Some(0))));
}

#[test]
fn body_with_empty_name_is_taken() {
    assert_eq!(read_fields(b"{\"name\":\"\"}"), Ok(fields("", None)));
}

#[test]
fn body_with_other_members_ignores_them() {
    assert_eq!(
        read_fields(b" { \"id\": 9, \"priority\": -3, \"name\": \"a \\\"b\\\" \\u00e9\" } "),
        Ok(fields("a \"b\" \u{e9}", Some(-3)))
    );
}

#[test]
fn body_with_a_repeated_member_takes_the_last() {
    assert_eq!(read_fields(b"{\"name\":\"a\",\"name\":\"b\"}"), Ok(fields("b", None)));
}

#[test]
fn priority_at_the_ends_of_32_bits() {
    assert_eq!(
        read_fields(b"{\"name\":\"n\",\"priority\":2147483647}"),
        Ok(fields("n", Some(i32::MAX)))
    );
    assert_eq!(
        read_fields(b"{\"name\":\"n\",\"priority\":-2147483648}"),
        Ok(fields("n", Some(i32::MIN)))
    );
    assert_eq!(
        read_fields(b"{\"name\":\"n\",\"priority\":2147483648}"),
        Err(DecodeError::BadPriority)
    );
    assert_eq!(
        read_fields(b"{\"name\":\"n\",\"priority\":-2147483649}"),
        Err(DecodeError::BadPriority)
    );
}

#[test]
fn priority_that_is_no_integer() {
    for body in [
        "{\"name\":\"n\",\"priority\":\"5\"}",
        "{\"name\":\"n\",\"priority\":5.0}",
        "{\"name\":\"n\",\"priority\":5.5}",
        "{\"name\":\"n\",\"priority\":1e2}",
        "{\"name\":\"n\",\"priority\":true}",
        "{\"name\":\"n\",\"priority\":[5]}",
        "{\"name\":\"n\",\"priority\":{}}",
        "{\"name\":\"n\",\"priority\":18446744073709551615}",
        "{\"name\":\"n\",\"priority\":9223372036854775808}",
    ] {
        assert_eq!(read_fields(body.as_bytes()), Err(DecodeError::BadPriority), "{}", body);
    }
}

#[test]
fn name_that_is_missing() {
    for body in ["{}", "{\"priority\":5}", "{\"Name\":\"n\"}", "[]", "[\"n\",5]", "5", "\"n\"", "null", "true"] {
        assert_eq!(read_fields(body.as_bytes()), Err(DecodeError::MissingName), "{}", body);
    }
}

#[test]
fn name_that_is_no_string() {
    for body in ["{\"name\":5}", "{\"name\":null}", "{\"name\":[\"n\"]}", "{\"name\":{}}", "{\"name\":false}"] {
        assert_eq!(read_fields(body.as_bytes()), Err(DecodeError::NameNotText), "{}", body);
    }
}

#[test]
fn name_is_looked_at_before_priority() {
    assert_eq!(read_fields(b"{\"priority\":\"x\"}"), Err(DecodeError::MissingName));
    assert_eq!(read_fields(b"{\"name\":1,\"priority\":\"x\"}"), Err(DecodeError::NameNotText));
}

#[test]
fn body_that_is_no_json() {
    for body in ["", " ", "{", "{\"name\":\"n\"", "{\"name\":\"n\"} x", "{name:\"n\"}", "{'name':'n'}", "nul", "{\"name\":\"n\",}"] {
        match read_fields(body.as_bytes()) {
            Err(DecodeError::Syntax(complaint)) => assert!(!complaint.is_empty(), "{}", body),
            other => panic!("{:?} gave {:?}", body, other),
        }
    }
}

#[test]
fn body_that_is_no_utf8() {
    assert!(matches!(read_fields(&[0x7b, 0x22, 0xff, 0x22, 0x3a, 0x31, 0x7d]), Err(DecodeError::Syntax(_))));
}

#[test]
fn syntax_complaint_is_the_parser_s_own() {
    let body = "{\"name\": }";
    let expected = serde_json::from_str::<serde_json::Value>(body).unwrap_err().to_string();
    assert_eq!(read_fields(body.as_bytes()), Err(DecodeError::Syntax(expected.clone())));
    assert_eq!(expected, "expected value at line 1 column 10");
}

#[test]
fn decode_fields_reads_a_parsed_value() {
    let value = serde_json::from_str::<serde_json::Value>("{\"name\":\"n\",\"priority\":5}").unwrap();
    assert_eq!(decode_fields(&value), Ok(fields("n", Some(5))));
    let value = serde_json::Value::Array(vec![serde_json::Value::from("n")]);
    assert_eq!(decode_fields(&value), Err(DecodeError::MissingName));
    let mut members = serde_json::Map::new();
    members.insert("name".to_string(), serde_json::Value::from("n"));
    members.insert("priority".to_string(), serde_json::Value::Null);
    assert_eq!(decode_fields(&serde_json::Value::Object(members)), Ok(fields("n", None)));
}

#[test]
fn decode_errors_have_a_status_and_a_message() {
    let syntax = DecodeError::Syntax("expected value at line 1 column 1".to_string());
    assert_eq!(syntax.status(), 400);
    assert_eq!(syntax.message(), "expected value at line 1 column 1");
    assert_eq!(DecodeError::MissingName.status(), 422);
    assert_eq!(DecodeError::MissingName.message(), "missing field `name`");
    assert_eq!(DecodeError::NameNotText.status(), 422);
    assert_eq!(DecodeError::NameNotText.message(), "field `name` is not a string");
    assert_eq!(DecodeError::BadPriority.status(), 422);
    assert_eq!(DecodeError::BadPriority.message(), "field `priority` is not a 32-bit integer");
}
