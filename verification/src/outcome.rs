//! How one invocation ends: with text for standard output, or with a failure.

use vstd::prelude::*;

verus! {

/// A terminal failure of one invocation.
#[derive(Clone, Debug, PartialEq, Eq)]
pub enum Failure {
    /// The endpoint could not be reached.
    Connection { endpoint: String, cause: String },
    /// Writing the request or reading the reply failed.
    Transport(String),
    /// The connection ended before a line with anything but whitespace came.
    EmptyResponse,
    /// The reply is not a JSON document.
    Parse(String),
    /// The daemon answered with a status other than success.
    Protocol(String),
    /// A document could not be written out as text. The JSON writer does not
    /// fail on a document, so that nothing in this crate ends this way; the
    /// kind is there for the error that the writer's signature allows.
    Serialize(String),
}

/// A failure as a mathematical value.
pub enum FailureView {
    Connection { endpoint: Seq<char>, cause: Seq<char> },
    Transport(Seq<char>),
    EmptyResponse,
    Parse(Seq<char>),
    Protocol(Seq<char>),
    Serialize(Seq<char>),
}

impl View for Failure {
    type V = FailureView;

    open spec fn view(&self) -> FailureView {
        match self {
            Failure::Connection { endpoint, cause } => FailureView::Connection {
                endpoint: endpoint@,
                cause: cause@,
            },
            Failure::Transport(cause) => FailureView::Transport(cause@),
            Failure::EmptyResponse => FailureView::EmptyResponse,
            Failure::Parse(diagnostic) => FailureView::Parse(diagnostic@),
            Failure::Protocol(error) => FailureView::Protocol(error@),
            Failure::Serialize(cause) => FailureView::Serialize(cause@),
        }
    }
}

impl FailureView {
    /// What the failure has to say beyond its kind.
    pub open spec fn detail(self) -> Seq<char> {
        match self {
            FailureView::Connection { endpoint, cause } => "Failed to connect to admin socket at "@
                + endpoint + ": "@ + cause,
            FailureView::Transport(cause) => cause,
            FailureView::EmptyResponse => "Empty response from admin socket"@,
            FailureView::Parse(diagnostic) => diagnostic,
            FailureView::Protocol(error) => error,
            FailureView::Serialize(cause) => cause,
        }
    }

    /// The line reported on standard error.
    pub open spec fn report(self) -> Seq<char> {
        match self {
            FailureView::EmptyResponse => self.detail(),
            _ => "Error: "@ + self.detail(),
        }
    }
}

impl Failure {
    /// What the failure has to say beyond its kind.
    pub fn detail(&self) -> (text: String)
        ensures
            text@ == self@.detail(),
    {
        match self {
            Failure::Connection { endpoint, cause } => {
                let mut text = "Failed to connect to admin socket at ".to_owned();
                text.append(endpoint.as_str());
                text.append(": ");
                text.append(cause.as_str());
                text
            },
            Failure::Transport(cause) => cause.clone(),
            Failure::EmptyResponse => "Empty response from admin socket".to_owned(),
            Failure::Parse(diagnostic) => diagnostic.clone(),
            Failure::Protocol(error) => error.clone(),
            Failure::Serialize(cause) => cause.clone(),
        }
    }

    /// The line to report on standard error.
    pub fn report(&self) -> (line: String)
        ensures
            line@ == self@.report(),
    {
        match self {
            Failure::EmptyResponse => self.detail(),
            _ => {
                let mut line = "Error: ".to_owned();
                let detail = self.detail();
                line.append(detail.as_str());
                line
            },
        }
    }
}

/// What comes of writing a document out as text: the text and a newline, or
/// the failure of the writer with its cause.
pub fn written(outcome: Result<String, String>) -> (line: Result<String, Failure>)
    ensures
        match outcome {
            Ok(body) => line matches Ok(text) && text@ == body@ + "\n"@,
            Err(cause) => line matches Err(failure) && failure@ == FailureView::Serialize(cause@),
        },
{
    match outcome {
        Ok(body) => {
            let mut text = body;
            text.append("\n");
            Ok(text)
        },
        Err(cause) => Err(Failure::Serialize(cause)),
    }
}

/// The end of one invocation.
#[derive(Clone, Debug, PartialEq, Eq)]
pub enum Outcome {
    /// Text for standard output; the process exits with status zero.
    Printed(String),
    /// A failure to report; the process exits with a status other than zero.
    Failed(Failure),
}

/// An outcome as a mathematical value.
pub enum OutcomeView {
    Printed(Seq<char>),
    Failed(FailureView),
}

impl View for Outcome {
    type V = OutcomeView;

    open spec fn view(&self) -> OutcomeView {
        match self {
            Outcome::Printed(text) => OutcomeView::Printed(text@),
            Outcome::Failed(failure) => OutcomeView::Failed(failure@),
        }
    }
}

impl Outcome {
    /// The status that the process exits with.
    pub fn exit_code(&self) -> (code: i32)
        ensures
            code == 0 <==> self@ is Printed,
            code == 0 || code == 1,
    {
        match self {
            Outcome::Printed(_) => 0,
            Outcome::Failed(_) => 1,
        }
    }
}

} // verus!
