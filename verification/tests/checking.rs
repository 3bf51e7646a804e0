use nativeclient::check::{
    check_outcome, parse_type_error_response, type_errors_of_document, CheckError, TypeError,
    COMMAND_FAILED, IO_FAILURE, RESPONSE_FAILURE, TYPE_ERRORS_FOUND,
};
use nativeclient::json::JsonValue;

const ONE_ERROR: &str = r#"[{
    "line": 1, "column": 2, "stop_line": 3, "stop_column": 4,
    "path": "a.py", "code": 7, "name": "Incompatible",
    "description": "d", "long_description": "ld", "concise_description": "cd"
}]"#;

#[test]
fn clean_run_succeeds() {
    assert!(check_outcome(true, "[]").is_ok());
}

#[test]
fn reported_errors_fail_the_check() {
    let failure = check_outcome(true, ONE_ERROR).expect_err("a failure");
    assert_eq!(failure.msg, "Had some type errors");
    assert_eq!(failure.msg, TYPE_ERRORS_FOUND);
}

#[test]
fn failed_process_fails_whatever_it_printed() {
    assert_eq!(check_outcome(false, "[]").expect_err("a failure").msg, "Command failed");
    assert_eq!(check_outcome(false, ONE_ERROR).expect_err("a failure").msg, COMMAND_FAILED);
    assert_eq!(check_outcome(false, "not json").expect_err("a failure").msg, COMMAND_FAILED);
}

#[test]
fn malformed_output_fails_the_response() {
    assert_eq!(check_outcome(true, "not json").expect_err("a failure").msg, RESPONSE_FAILURE);
    assert_eq!(check_outcome(true, "{}").expect_err("a failure").msg, RESPONSE_FAILURE);
    assert_eq!(check_outcome(true, "[1]").expect_err("a failure").msg, RESPONSE_FAILURE);
    assert_eq!(
        check_outcome(true, r#"[{"line": 1}]"#).expect_err("a failure").msg,
        "Cannot parse response as JSON"
    );
}

#[test]
fn type_errors_are_read_item_by_item() {
    let errors = parse_type_error_response(ONE_ERROR).expect("type errors");
    assert_eq!(
        errors,
        vec![TypeError {
            line: 1,
            column: 2,
            stop_line: 3,
            stop_column: 4,
            path: String::from("a.py"),
            code: 7,
            name: String::from("Incompatible"),
            description: String::from("d"),
            long_description: String::from("ld"),
            concise_description: String::from("cd"),
        }]
    );
    assert_eq!(parse_type_error_response("[]").expect("type errors"), Vec::new());
}

#[test]
fn type_errors_need_every_item_with_its_type() {
    let ill_typed = ONE_ERROR.replace("\"line\": 1", "\"line\": \"1\"");
    assert!(parse_type_error_response(&ill_typed).is_err());
    let too_large = ONE_ERROR.replace("\"code\": 7", "\"code\": 4294967296");
    assert!(parse_type_error_response(&too_large).is_err());
    let missing = ONE_ERROR.replace("\"path\": \"a.py\",", "");
    assert!(parse_type_error_response(&missing).is_err());
    assert!(type_errors_of_document(&JsonValue::Null).is_none());
    assert_eq!(type_errors_of_document(&JsonValue::Array(Vec::new())), Some(Vec::new()));
    assert!(TypeError::from_json(&JsonValue::Object(Vec::new())).is_none());
}

#[test]
fn io_failure_has_its_message() {
    let failure: CheckError = CheckError::io();
    assert_eq!(failure.msg, "I/O error");
    assert_eq!(failure.msg, IO_FAILURE);
}
