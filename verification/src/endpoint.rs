//! Endpoints: where the daemon's admin socket listens.

use vstd::prelude::*;
use crate::outcome::{Failure, FailureView};
use crate::text::{has_prefix, starts_with};

verus! {

/// The address to connect to: the endpoint without a leading `tcp://`, or the
/// endpoint as it is where it has no such prefix.
pub open spec fn address_of(endpoint: Seq<char>) -> Seq<char> {
    if has_prefix(endpoint, "tcp://"@) {
        endpoint.subrange("tcp://"@.len() as int, endpoint.len() as int)
    } else {
        endpoint
    }
}

/// The endpoint used where none is given.
pub fn default_endpoint() -> (endpoint: &'static str)
    ensures
        endpoint@ == "tcp://localhost:9001"@,
{
    "tcp://localhost:9001"
}

/// The address to connect to for an endpoint.
pub fn address<'a>(endpoint: &'a str) -> (host: &'a str)
    ensures
        host@ == address_of(endpoint@),
{
    if starts_with(endpoint, "tcp://") {
        endpoint.substring_char("tcp://".unicode_len(), endpoint.unicode_len())
    } else {
        endpoint
    }
}

/// The failure to report where no connection to `endpoint` could be made.
pub fn connection_failure(endpoint: &str, cause: &str) -> (failure: Failure)
    ensures
        failure@ == (FailureView::Connection { endpoint: endpoint@, cause: cause@ }),
{
    Failure::Connection { endpoint: endpoint.to_owned(), cause: cause.to_owned() }
}

/// The report of a failed connection holds the endpoint as it was given,
/// scheme included, at the place where the report says so.
pub proof fn lemma_connection_report_names_endpoint(endpoint: Seq<char>, cause: Seq<char>)
    ensures
        ({
            let report = (FailureView::Connection { endpoint, cause }).report();
            let start = ("Error: "@.len() + "Failed to connect to admin socket at "@.len()) as int;
            report.subrange(start, start + endpoint.len()) == endpoint
        }),
{
    let report = (FailureView::Connection { endpoint, cause }).report();
    let start = ("Error: "@.len() + "Failed to connect to admin socket at "@.len()) as int;
    assert(report.subrange(start, start + endpoint.len()) =~= endpoint);
}

} // verus!
