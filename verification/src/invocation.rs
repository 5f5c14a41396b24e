//! What an invocation is asked to do, decided from its flags and free arguments.

use vstd::prelude::*;
use crate::endpoint::default_endpoint;
use crate::request::{arguments_of, token_texts, Request, RequestView};

verus! {

/// The flags of a command line, as its parser found them.
pub struct Flags {
    /// The endpoint given with `-e`, if any.
    pub endpoint: Option<String>,
    /// `-j`: show replies as JSON.
    pub json: bool,
    /// `-h`: show the help text.
    pub help: bool,
    /// `-v`: show the version.
    pub version: bool,
}

/// What an invocation is asked to do.
pub enum Invocation {
    /// Print the help text to standard output and exit with status zero.
    Help,
    /// Print the version to standard output and exit with status zero.
    Version,
    /// No command was given: print the usage to standard error and exit
    /// with a status other than zero.
    Usage,
    /// Send `request` to the daemon at `endpoint` and show its reply.
    Exchange { endpoint: String, json_mode: bool, request: Request },
}

/// An invocation as a mathematical value.
pub enum InvocationView {
    Help,
    Version,
    Usage,
    Exchange { endpoint: Seq<char>, json_mode: bool, request: RequestView },
}

impl View for Invocation {
    type V = InvocationView;

    open spec fn view(&self) -> InvocationView {
        match self {
            Invocation::Help => InvocationView::Help,
            Invocation::Version => InvocationView::Version,
            Invocation::Usage => InvocationView::Usage,
            Invocation::Exchange { endpoint, json_mode, request } => InvocationView::Exchange {
                endpoint: endpoint@,
                json_mode: *json_mode,
                request: request@,
            },
        }
    }
}

/// The endpoint to use: the one given, or the default where none is.
pub open spec fn chosen_endpoint(given: Option<Seq<char>>) -> Seq<char> {
    match given {
        Some(endpoint) => endpoint,
        None => "tcp://localhost:9001"@,
    }
}

/// The endpoint that the flags give, as characters.
pub open spec fn given_endpoint(flags: Flags) -> Option<Seq<char>> {
    match flags.endpoint {
        Some(endpoint) => Some(endpoint@),
        None => None,
    }
}

/// What the flags and free arguments ask for. A request for help comes before
/// one for the version, and both before anything else: neither contacts the
/// daemon. Otherwise the first free argument names the command and the others
/// are its tokens; without a first there is nothing to send.
pub open spec fn planned(
    endpoint: Option<Seq<char>>,
    json: bool,
    help: bool,
    version: bool,
    free: Seq<Seq<char>>,
) -> InvocationView {
    if help {
        InvocationView::Help
    } else if version {
        InvocationView::Version
    } else if free.len() == 0 {
        InvocationView::Usage
    } else {
        InvocationView::Exchange {
            endpoint: chosen_endpoint(endpoint),
            json_mode: json,
            request: RequestView {
                request: free[0],
                arguments: arguments_of(free.subrange(1, free.len() as int)),
                keepalive: false,
            },
        }
    }
}

impl Invocation {
    /// Decides what the flags and free arguments of a command line ask for.
    pub fn plan(flags: Flags, free: &[String]) -> (invocation: Invocation)
        ensures
            invocation@ == planned(
                given_endpoint(flags),
                flags.json,
                flags.help,
                flags.version,
                token_texts(free@),
            ),
    {
        if flags.help {
            return Invocation::Help;
        }
        if flags.version {
            return Invocation::Version;
        }
        let request = match Request::from_arguments(free) {
            Some(request) => request,
            None => {
                return Invocation::Usage;
            },
        };
        let endpoint = match flags.endpoint {
            Some(endpoint) => endpoint,
            None => default_endpoint().to_owned(),
        };
        Invocation::Exchange { endpoint, json_mode: flags.json, request }
    }

    /// Whether the invocation opens a connection to the daemon.
    pub fn contacts_daemon(&self) -> (contacts: bool)
        ensures
            contacts == (self@ is Exchange),
    {
        match self {
            Invocation::Exchange { .. } => true,
            _ => false,
        }
    }
}

/// The one-line usage of the command.
pub fn usage_line() -> (line: &'static str)
    ensures
        line@ == "Usage: yggdrasilctl [options] <command> [key=value ...]"@,
{
    "Usage: yggdrasilctl [options] <command> [key=value ...]"
}

/// The line that lists the commands of the daemon.
pub fn command_list() -> (line: &'static str)
    ensures
        line@ == "Commands: list, getSelf, getPeers, getTree, addPeer, removePeer"@,
{
    "Commands: list, getSelf, getPeers, getTree, addPeer, removePeer"
}

/// A request for help or for the version is answered without a connection,
/// whatever else the command line holds.
pub proof fn lemma_help_and_version_stay_local(
    endpoint: Option<Seq<char>>,
    json: bool,
    help: bool,
    version: bool,
    free: Seq<Seq<char>>,
)
    requires
        help || version,
    ensures
        planned(endpoint, json, help, version, free) is Help || planned(
            endpoint,
            json,
            help,
            version,
            free,
        ) is Version,
{
}

} // verus!
