//! One exchange with the daemon, from the reply line to what the invoker sees.

use vstd::prelude::*;
use crate::json::{json_of, parsed, pretty_text, Json};
use crate::outcome::{Failure, FailureView, Outcome, OutcomeView};
use crate::render::{command_of, render, render_document, rendered, Command};
use crate::response::{error_of, interpret, interpretation, parse_reply, succeeded};
use crate::text::{trim, trimmed};

verus! {

/// What is shown for a reply. In JSON mode that is the whole reply, indented,
/// whatever the command and whatever the reply's status. Otherwise it is the
/// protocol failure of a reply that does not report success, and the view of
/// the command on the payload of one that does.
pub open spec fn presented(command: Seq<char>, reply: Json, json_mode: bool) -> OutcomeView {
    if json_mode {
        OutcomeView::Printed(pretty_text(reply) + "\n"@)
    } else {
        match interpretation(reply) {
            Ok(payload) => OutcomeView::Printed(rendered(command_of(command), payload)),
            Err(message) => OutcomeView::Failed(FailureView::Protocol(message)),
        }
    }
}

/// What comes of the text of a reply line, whitespace around it taken off:
/// the failure of an empty response where nothing is left, the parse failure
/// where the text is not a JSON document, and what is shown for the reply
/// otherwise.
pub open spec fn handled_body(command: Seq<char>, body: Seq<char>, json_mode: bool) -> OutcomeView {
    if body.len() == 0 {
        OutcomeView::Failed(FailureView::EmptyResponse)
    } else {
        match parsed(body) {
            Ok(reply) => presented(command, reply, json_mode),
            Err(diagnostic) => OutcomeView::Failed(FailureView::Parse(diagnostic)),
        }
    }
}

/// What comes of a reply line as it was read.
pub open spec fn handled(command: Seq<char>, line: Seq<char>, json_mode: bool) -> OutcomeView {
    handled_body(command, trimmed(line), json_mode)
}

/// The outcome of a step that either made the text to print or failed.
pub fn conclude(text: Result<String, Failure>) -> (outcome: Outcome)
    ensures
        match text {
            Ok(shown) => outcome@ == OutcomeView::Printed(shown@),
            Err(failure) => outcome@ == OutcomeView::Failed(failure@),
        },
{
    match text {
        Ok(shown) => Outcome::Printed(shown),
        Err(failure) => Outcome::Failed(failure),
    }
}

/// Shows a reply for `command`.
pub fn present(command: &str, reply: &serde_json::Value, json_mode: bool) -> (outcome: Outcome)
    ensures
        outcome@ == presented(command@, json_of(*reply), json_mode),
{
    if json_mode {
        return conclude(render_document(reply));
    }
    match interpret(reply) {
        Ok(payload) => conclude(render(Command::parse(command), payload)),
        Err(failure) => Outcome::Failed(failure),
    }
}

/// Handles the text of a reply line, whitespace around it already taken off.
pub fn handle_body(command: &str, body: &str, json_mode: bool) -> (outcome: Outcome)
    ensures
        outcome@ == handled_body(command@, body@, json_mode),
{
    if body.is_empty() {
        return Outcome::Failed(Failure::EmptyResponse);
    }
    match parse_reply(body) {
        Ok(reply) => present(command, &reply, json_mode),
        Err(failure) => Outcome::Failed(failure),
    }
}

/// Handles the line that the daemon sent in reply to `command`.
pub fn handle_reply(command: &str, line: &str, json_mode: bool) -> (outcome: Outcome)
    ensures
        outcome@ == handled(command@, line@, json_mode),
{
    handle_body(command, trim(line), json_mode)
}

/// In JSON mode what is shown is the indented text of the whole reply, for
/// every command and every reply, one that reports an error included.
pub proof fn lemma_json_mode_shows_reply(command: Seq<char>, reply: Json)
    ensures
        presented(command, reply, true) == OutcomeView::Printed(pretty_text(reply) + "\n"@),
{
}

/// In JSON mode a text that is a JSON document is answered with that
/// document, indented, and a newline: never with the view of a command, and
/// never with a failure.
pub proof fn lemma_json_mode_prints_document(command: Seq<char>, body: Seq<char>)
    ensures
        body.len() > 0 && parsed(body) is Ok ==> handled_body(command, body, true)
            == OutcomeView::Printed(pretty_text(parsed(body)->Ok_0) + "\n"@),
{
}

/// In JSON mode the command plays no part in what comes of a reply line.
pub proof fn lemma_json_mode_ignores_command(first: Seq<char>, second: Seq<char>, line: Seq<char>)
    ensures
        handled(first, line, true) == handled(second, line, true),
{
}

/// A reply that does not report success ends in the protocol failure with
/// the reply's error, outside JSON mode and whatever the command.
pub proof fn lemma_error_reply_fails(command: Seq<char>, reply: Json)
    requires
        !succeeded(reply),
    ensures
        presented(command, reply, false) == OutcomeView::Failed(
            FailureView::Protocol(error_of(reply)),
        ),
{
}

} // verus!
