use yggdrasilctl::outcome::{Failure, Outcome};
use yggdrasilctl::session::{conclude, handle_body, handle_reply, present};

fn document_of(text: &str) -> serde_json::Value {
    serde_json::from_str(text).unwrap()
}

#[test]
fn getself_reply_shows_the_block() {
    let line = "{\"status\":\"success\",\"response\":{\"build_name\":\"yggdrasil\",\"build_version\":\"0.5\",\"key\":\"abcd\",\"address\":\"200:1234::1\",\"subnet\":\"200:1234::/64\",\"routing_entries\":42}}\n";
    let outcome = handle_reply("getself", line, false);
    assert_eq!(
        outcome,
        Outcome::Printed(
            "  Build name:        yggdrasil\n  Build version:     0.5\n  Public key:        abcd\n  IPv6 address:      200:1234::1\n  IPv6 subnet:       200:1234::/64\n  Routing entries:   42\n"
                .to_string()
        )
    );
    assert_eq!(outcome.exit_code(), 0);
}

#[test]
fn command_case_does_not_matter() {
    let line = "{\"status\":\"success\",\"response\":{\"key\":\"abcd\"}}\n";
    assert_eq!(handle_reply("getSelf", line, false), handle_reply("GETSELF", line, false));
    assert_eq!(handle_reply("getSelf", line, false), Outcome::Printed("  Public key:        abcd\n".to_string()));
}

#[test]
fn error_reply_reports_the_error() {
    let outcome = handle_reply("badcommand", "{\"status\":\"error\",\"error\":\"unknown command\"}\n", false);
    assert_eq!(outcome, Outcome::Failed(Failure::Protocol("unknown command".to_string())));
    assert_ne!(outcome.exit_code(), 0);
    match outcome {
        Outcome::Failed(failure) => assert_eq!(failure.report(), "Error: unknown command"),
        Outcome::Printed(text) => panic!("printed {:?}", text),
    }
}

#[test]
fn list_reply_shows_the_commands() {
    let outcome = handle_reply("list", "{\"status\":\"success\",\"response\":{\"list\":[\"getSelf\",\"getPeers\"]}}\n", false);
    assert_eq!(outcome, Outcome::Printed("Available commands:\n  getSelf\n  getPeers\n".to_string()));
}

#[test]
fn json_mode_shows_the_whole_reply() {
    let line = "{\"status\":\"success\",\"response\":{\"list\":[\"getSelf\"]}}\n";
    let expected = "{\n  \"response\": {\n    \"list\": [\n      \"getSelf\"\n    ]\n  },\n  \"status\": \"success\"\n}\n";
    for command in ["list", "getSelf", "getPeers", "getTree", "addPeer", ""] {
        assert_eq!(handle_reply(command, line, true), Outcome::Printed(expected.to_string()));
    }
}

#[test]
fn json_mode_shows_error_replies_too() {
    let outcome = handle_reply("badcommand", "{\"status\":\"error\",\"error\":\"unknown command\"}\n", true);
    assert_eq!(
        outcome,
        Outcome::Printed("{\n  \"error\": \"unknown command\",\n  \"status\": \"error\"\n}\n".to_string())
    );
    assert_eq!(outcome.exit_code(), 0);
}

#[test]
fn json_mode_shows_replies_without_status() {
    assert_eq!(handle_reply("list", "[1]", true), Outcome::Printed("[\n  1\n]\n".to_string()));
}

#[test]
fn empty_line_is_an_empty_response() {
    for line in ["", "\n", "  \t \r\n", "\u{a0}\u{2003}"] {
        for json_mode in [false, true] {
            let outcome = handle_reply("getSelf", line, json_mode);
            assert_eq!(outcome, Outcome::Failed(Failure::EmptyResponse));
            assert_ne!(outcome.exit_code(), 0);
        }
    }
}

#[test]
fn whitespace_around_the_reply_is_dropped() {
    let outcome = handle_reply("list", " \t{\"status\":\"success\",\"response\":{\"list\":[]}}\r\n", false);
    assert_eq!(outcome, Outcome::Printed("Available commands:\n".to_string()));
}

#[test]
fn malformed_reply_is_a_parse_failure() {
    for json_mode in [false, true] {
        let outcome = handle_reply("getSelf", "{\"status\": \n", json_mode);
        assert_eq!(
            outcome,
            Outcome::Failed(Failure::Parse("EOF while parsing a value at line 1 column 10".to_string()))
        );
        assert_eq!(outcome.exit_code(), 1);
    }
}

#[test]
fn other_command_shows_the_payload_alone() {
    let outcome = handle_reply("addPeer", "{\"status\":\"success\",\"response\":{\"added\":[\"tcp://a:1\"]}}\n", false);
    assert_eq!(outcome, Outcome::Printed("{\n  \"added\": [\n    \"tcp://a:1\"\n  ]\n}\n".to_string()));
}

#[test]
fn other_command_without_response_shows_null() {
    assert_eq!(handle_reply("addPeer", "{\"status\":\"success\"}", false), Outcome::Printed("null\n".to_string()));
}

#[test]
fn known_command_without_response_shows_nothing() {
    for command in ["list", "getSelf", "getPeers", "getTree"] {
        assert_eq!(handle_reply(command, "{\"status\":\"success\"}", false), Outcome::Printed(String::new()));
    }
}

#[test]
fn present_checks_the_status_outside_json_mode() {
    let reply = document_of("{\"status\":\"failed\",\"response\":{\"list\":[\"a\"]}}");
    assert_eq!(present("list", &reply, false), Outcome::Failed(Failure::Protocol("unknown error".to_string())));
    assert_eq!(
        present("list", &reply, true),
        Outcome::Printed("{\n  \"response\": {\n    \"list\": [\n      \"a\"\n    ]\n  },\n  \"status\": \"failed\"\n}\n".to_string())
    );
}

#[test]
fn conclude_keeps_text_and_failure() {
    assert_eq!(conclude(Ok("text\n".to_string())), Outcome::Printed("text\n".to_string()));
    assert_eq!(conclude(Err(Failure::EmptyResponse)), Outcome::Failed(Failure::EmptyResponse));
}

#[test]
fn body_is_taken_as_it_is() {
    assert_eq!(handle_body("list", "", false), Outcome::Failed(Failure::EmptyResponse));
    assert_eq!(
        handle_body("list", "{\"status\":\"success\",\"response\":{\"list\":[\"a\"]}}", false),
        Outcome::Printed("Available commands:\n  a\n".to_string())
    );
    assert_eq!(handle_body("list", "7", true), Outcome::Printed("7\n".to_string()));
}
