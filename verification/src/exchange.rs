//! One call to the service, seen from the side that decides: what is to be
//! sent, and what each report of the transport leads to. The caller sends and
//! reads; nothing here touches the network.

use crate::error::ClientError;
use vstd::prelude::*;

verus! {

/// The two things the service can be asked to do.
#[derive(Clone, Copy, Debug, PartialEq, Eq, Structural)]
pub enum Operation {
    /// Take a text in.
    Input,
    /// Give a text out.
    Generate,
}

/// A request to send: `body` goes out by POST to `url`.
#[derive(Debug, PartialEq, Eq)]
pub struct Request {
    pub operation: Operation,
    pub url: String,
    pub body: String,
}

/// A call whose answer has arrived with `status` and whose body is wanted:
/// as the text that was generated where the status reports success, and else
/// as the account of the failure.
#[derive(Clone, Copy, Debug, PartialEq, Eq, Structural)]
pub struct Pending {
    pub status: u16,
}

/// What a call that succeeded gives back.
#[derive(Debug, PartialEq, Eq)]
pub enum Output {
    /// The service took the text; its answer holds nothing of use.
    Stored,
    /// The text that the service generated: the body of its answer, whole.
    Generated(String),
}

/// What the caller is to do once the answer to a request has begun.
#[derive(Debug)]
pub enum Step {
    /// The call is over, with this result.
    Done(Result<Output, ClientError>),
    /// The body of the answer is to be read and handed to `Pending::read`.
    Read(Pending),
}

/// Whether `status` reports success: it lies in 200..=299.
pub open spec fn is_success(status: u16) -> bool {
    200 <= status < 300
}

/// Tells whether `status` reports success.
pub fn succeeded(status: u16) -> (r: bool)
    ensures
        r == is_success(status),
{
    200 <= status && status < 300
}

/// What a call for `operation` comes to, when sending the request leads to
/// `status` and reading the body of the answer, where it is read, to `body`.
///
/// A failure of the transport is the error, at whichever of the two it
/// strikes. A status of success ends an `Input` at once, and makes the body
/// the result of a `Generate`. Any other status makes status and body the
/// error.
pub open spec fn conclusion(
    operation: Operation,
    status: Result<u16, reqwest::Error>,
    body: Result<String, reqwest::Error>,
) -> Result<Output, ClientError> {
    match (status, body) {
        (Err(cause), _) => Err(ClientError::Http(cause)),
        (Ok(status), _) if is_success(status) && operation == Operation::Input => Ok(
            Output::Stored,
        ),
        (Ok(_), Err(cause)) => Err(ClientError::Http(cause)),
        (Ok(status), Ok(text)) => if is_success(status) {
            Ok(Output::Generated(text))
        } else {
            Err(ClientError::Api { status, body: text })
        },
    }
}

impl Output {
    /// The text that the service gave: what it generated, and nothing where
    /// it only took a text in.
    pub fn into_text(self) -> (text: String)
        ensures
            match self {
                Output::Generated(body) => text == body,
                Output::Stored => text@ == Seq::<char>::empty(),
            },
    {
        match self {
            Output::Generated(body) => body,
            Output::Stored => String::new(),
        }
    }
}

impl Request {
    /// The step that follows when sending a request for `operation` led to
    /// `outcome`. A failure ends the call. So does a status of success where
    /// a text was handed in, without a look at the body. In every other case
    /// the body is wanted.
    pub open spec fn after_send(operation: Operation, outcome: Result<u16, reqwest::Error>) -> Step {
        match outcome {
            Err(cause) => Step::Done(Err(ClientError::Http(cause))),
            Ok(status) => if is_success(status) && operation == Operation::Input {
                Step::Done(Ok(Output::Stored))
            } else {
                Step::Read(Pending { status })
            },
        }
    }

    /// Decides on what sending the request led to: the status of the answer,
    /// or the failure of the transport.
    pub fn sent(&self, outcome: Result<u16, reqwest::Error>) -> (step: Step)
        ensures
            step == Self::after_send(self.operation, outcome),
    {
        match outcome {
            Err(cause) => Step::Done(Err(ClientError::Http(cause))),
            Ok(status) => {
                if succeeded(status) && self.operation == Operation::Input {
                    Step::Done(Ok(Output::Stored))
                } else {
                    Step::Read(Pending { status })
                }
            },
        }
    }
}

impl Pending {
    /// The result when reading the body led to `outcome`. The text is the
    /// result where the status reports success; under any other status it
    /// becomes, with the status, the error. A failure to read is the error
    /// in both cases.
    pub open spec fn after_read(self, outcome: Result<String, reqwest::Error>) -> Result<
        Output,
        ClientError,
    > {
        match outcome {
            Err(cause) => Err(ClientError::Http(cause)),
            Ok(text) => if is_success(self.status) {
                Ok(Output::Generated(text))
            } else {
                Err(ClientError::Api { status: self.status, body: text })
            },
        }
    }

    /// Decides on what reading the body led to: its text, or the failure of
    /// the transport.
    pub fn read(self, outcome: Result<String, reqwest::Error>) -> (r: Result<Output, ClientError>)
        ensures
            r == self.after_read(outcome),
    {
        match outcome {
            Err(cause) => Err(ClientError::Http(cause)),
            Ok(text) => {
                if succeeded(self.status) {
                    Ok(Output::Generated(text))
                } else {
                    Err(ClientError::Api { status: self.status, body: text })
                }
            },
        }
    }
}

/// Taking the steps one by one comes to the conclusion of the call: where
/// the first step ends it, with that result whatever the body would have
/// been, and else with the result of the second step.
pub proof fn lemma_steps_reach_conclusion(
    request: Request,
    status: Result<u16, reqwest::Error>,
    body: Result<String, reqwest::Error>,
    step: Step,
    last: Result<Output, ClientError>,
)
    requires
        call_ensures(Request::sent, (&request, status), step),
        match step {
            Step::Done(result) => last == result,
            Step::Read(pending) => call_ensures(Pending::read, (pending, body), last),
        },
    ensures
        last == conclusion(request.operation, status, body),
{
}

/// A call ends in one of three ways: with its output, with the failure of
/// the transport, or with the status and body of an answer that does not
/// report success. An `Input` gives `Stored`, a `Generate` the body.
pub proof fn lemma_conclusion_kinds(
    operation: Operation,
    status: Result<u16, reqwest::Error>,
    body: Result<String, reqwest::Error>,
)
    ensures
        match conclusion(operation, status, body) {
            Ok(Output::Stored) => status matches Ok(code) && is_success(code) && operation
                == Operation::Input,
            Ok(Output::Generated(text)) => status matches Ok(code) && is_success(code)
                && operation == Operation::Generate && body == Ok::<_, reqwest::Error>(text),
            Err(ClientError::Http(cause)) => status == Err::<u16, _>(cause) || body == Err::<
                String,
                _,
            >(cause),
            Err(ClientError::Api { status: code, body: text }) => status == Ok::<_, reqwest::Error>(
                code,
            ) && !is_success(code) && body == Ok::<_, reqwest::Error>(text),
            Err(_) => false,
        },
{
}

} // verus!
