//! The two ways a request can end, and the response for each.

use vstd::prelude::*;

verus! {

/// How the handling of a request ended.
#[derive(Clone, Copy, Debug, PartialEq, Eq, Structural)]
pub enum Outcome {
    /// The subscriber was stored.
    Success,
    /// The insert failed, for whatever reason.
    Failure,
}

/// An HTTP response: its status code and its body.
#[derive(Debug)]
pub struct Response {
    pub status: u16,
    pub body: Vec<u8>,
}

/// The mathematical content of a [`Response`].
pub struct ResponseView {
    pub status: u16,
    pub body: Seq<u8>,
}

impl View for Response {
    type V = ResponseView;

    open spec fn view(&self) -> ResponseView {
        ResponseView { status: self.status, body: self.body@ }
    }
}

impl Outcome {
    /// The status code that reports this outcome: 200 for a stored
    /// subscriber, 500 for a failed insert.
    pub open spec fn status(self) -> u16 {
        match self {
            Outcome::Success => 200,
            Outcome::Failure => 500,
        }
    }

    /// The response that reports this outcome. Its body is empty either way:
    /// the reason of a failure is told to the journal only.
    pub open spec fn reply(self) -> ResponseView {
        ResponseView { status: self.status(), body: Seq::empty() }
    }

    /// The status code that reports this outcome.
    pub fn status_code(&self) -> (code: u16)
        ensures
            code == self.status(),
    {
        match self {
            Outcome::Success => 200,
            Outcome::Failure => 500,
        }
    }

    /// The response that reports this outcome.
    pub fn response(&self) -> (response: Response)
        ensures
            response@ == self.reply(),
    {
        Response { status: self.status_code(), body: Vec::new() }
    }
}

} // verus!
