//! Failures: what the outside reports, and the one error class the engine
//! hands on.

use vstd::prelude::*;

verus! {

/// What the chat service or the network reports when a request fails.
#[derive(Debug, PartialEq, Eq)]
pub struct Failure {
    /// The error code of the homeserver's reply, where it sent one.
    pub errcode: Option<String>,
    /// The failure in words.
    pub description: String,
}

/// What contracts see of a [`Failure`].
pub struct FailureView {
    pub errcode: Option<Seq<char>>,
    pub description: Seq<char>,
}

impl View for Failure {
    type V = FailureView;

    open spec fn view(&self) -> FailureView {
        FailureView {
            errcode: match self.errcode {
                Some(c) => Some(c@),
                None => None,
            },
            description: self.description@,
        }
    }
}

/// A network, upload, decode or store failure on its way to the boundary of
/// one work item. Its view is its description.
#[derive(Debug, PartialEq, Eq)]
pub struct TransportError {
    pub description: String,
}

impl View for TransportError {
    type V = Seq<char>;

    open spec fn view(&self) -> Seq<char> {
        self.description@
    }
}

/// A result as contracts speak of it: the view of the value, or the
/// error's description.
pub open spec fn outcome<T: View>(r: Result<T, TransportError>) -> Result<T::V, Seq<char>> {
    match r {
        Ok(t) => Ok(t@),
        Err(e) => Err(e@),
    }
}

/// The description of the error raised when the outside answers a request
/// with an event that is no answer to it.
pub open spec fn unexpected_reply() -> Seq<char> {
    "unexpected reply"@
}

impl TransportError {
    /// The error with the given description.
    pub fn new(description: String) -> (r: TransportError)
        ensures
            r@ == description@,
    {
        TransportError { description }
    }

    /// The error for a failed request: it keeps the description.
    pub fn from_failure(f: Failure) -> (r: TransportError)
        ensures
            r@ == f@.description,
    {
        TransportError { description: f.description }
    }

    /// The error for an event that is no answer to what was asked.
    pub fn unexpected() -> (r: TransportError)
        ensures
            r@ == unexpected_reply(),
    {
        TransportError { description: String::from_str("unexpected reply") }
    }
}

/// The room message that reports an error with the given description.
pub open spec fn rendered_error(description: Seq<char>) -> Seq<char> {
    "[error] "@ + description
}

/// Renders an error as the message that the triggering room receives.
pub fn render_error(e: &TransportError) -> (r: String)
    ensures
        r@ == rendered_error(e@),
{
    let mut out = String::from_str("[error] ");
    out.append(e.description.as_str());
    out
}

} // verus!
