use yggdrasilctl::outcome::Failure;
use yggdrasilctl::response::{error_in, interpret, parse_reply, reports_success};

fn reply_of(text: &str) -> serde_json::Value {
    serde_json::from_str(text).unwrap()
}

#[test]
fn success_gives_the_payload() {
    let reply = reply_of("{\"status\":\"success\",\"response\":{\"list\":[\"getSelf\"]}}");
    let payload = interpret(&reply).unwrap();
    assert_eq!(*payload, reply_of("{\"list\":[\"getSelf\"]}"));
}

#[test]
fn success_without_response_gives_null() {
    let reply = reply_of("{\"status\":\"success\"}");
    assert_eq!(*interpret(&reply).unwrap(), serde_json::Value::Null);
}

#[test]
fn error_status_gives_the_error() {
    let reply = reply_of("{\"status\":\"error\",\"error\":\"unknown command\"}");
    assert_eq!(interpret(&reply), Err(Failure::Protocol("unknown command".to_string())));
}

#[test]
fn error_without_message_is_unknown() {
    let reply = reply_of("{\"status\":\"error\"}");
    assert_eq!(interpret(&reply), Err(Failure::Protocol("unknown error".to_string())));
}

#[test]
fn error_that_is_no_string_is_unknown() {
    let reply = reply_of("{\"status\":\"error\",\"error\":{\"code\":7}}");
    assert_eq!(error_in(&reply), "unknown error");
    let reply = reply_of("{\"status\":\"error\",\"error\":null}");
    assert_eq!(error_in(&reply), "unknown error");
}

#[test]
fn missing_status_is_a_failure() {
    let reply = reply_of("{\"response\":{\"a\":1},\"error\":\"no status\"}");
    assert!(!reports_success(&reply));
    assert_eq!(interpret(&reply), Err(Failure::Protocol("no status".to_string())));
}

#[test]
fn null_status_is_a_failure() {
    let reply = reply_of("{\"status\":null,\"response\":{}}");
    assert_eq!(interpret(&reply), Err(Failure::Protocol("unknown error".to_string())));
}

#[test]
fn other_status_is_a_failure() {
    for status in ["\"Success\"", "\"success \"", "\"ok\"", "\"\"", "true", "1", "[\"success\"]"] {
        let reply = reply_of(&format!("{{\"status\":{},\"response\":{{}}}}", status));
        assert!(!reports_success(&reply));
        assert!(interpret(&reply).is_err());
    }
}

#[test]
fn reply_that_is_no_object_is_a_failure() {
    for text in ["null", "\"success\"", "[]", "4"] {
        let reply = reply_of(text);
        assert_eq!(interpret(&reply), Err(Failure::Protocol("unknown error".to_string())));
    }
}

#[test]
fn success_ignores_an_error_member() {
    let reply = reply_of("{\"status\":\"success\",\"error\":\"stale\",\"response\":7}");
    assert_eq!(*interpret(&reply).unwrap(), reply_of("7"));
}

#[test]
fn reply_line_parses_as_json() {
    let reply = parse_reply("{\"status\":\"success\",\"response\":[1,2]}").unwrap();
    assert_eq!(reply["response"][1], reply_of("2"));
}

#[test]
fn malformed_reply_gives_the_diagnostic() {
    assert_eq!(parse_reply("not json"), Err(Failure::Parse("expected ident at line 1 column 2".to_string())));
    assert_eq!(
        parse_reply("{\"status\":"),
        Err(Failure::Parse("EOF while parsing a value at line 1 column 10".to_string()))
    );
}

#[test]
fn reply_with_trailing_text_is_malformed() {
    assert_eq!(parse_reply("{} {}"), Err(Failure::Parse("trailing characters at line 1 column 4".to_string())));
}
