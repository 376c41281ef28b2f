//! What came back from one request to a remote service.

use vstd::prelude::*;

verus! {

/// Whether an HTTP status stands for success: the codes from 200 to 299.
pub open spec fn is_success(status: u16) -> bool {
    200 <= status <= 299
}

/// The outcome of one request.
#[derive(Debug, PartialEq, Eq)]
pub enum Reply {
    /// The service was not reached, or its answer could not be read.
    Unreachable,
    /// The service answered.
    Answer { status: u16, body: String },
}

/// What a `Reply` holds.
pub enum ReplyView {
    Unreachable,
    Answer { status: u16, body: Seq<char> },
}

impl View for Reply {
    type V = ReplyView;

    open spec fn view(&self) -> ReplyView {
        match self {
            Reply::Unreachable => ReplyView::Unreachable,
            Reply::Answer { status, body } => ReplyView::Answer { status: *status, body: body@ },
        }
    }
}

impl ReplyView {
    /// The body of an answer that reports success.
    pub open spec fn success_body(self) -> Option<Seq<char>> {
        match self {
            ReplyView::Answer { status, body } => if is_success(status) {
                Some(body)
            } else {
                None
            },
            ReplyView::Unreachable => None,
        }
    }

    /// Whether the service answered and reported success.
    pub open spec fn succeeded(self) -> bool {
        self.success_body() is Some
    }
}

/// Whether an HTTP status stands for success.
pub fn success(status: u16) -> (r: bool)
    ensures
        r == is_success(status),
{
    200 <= status && status <= 299
}

impl Reply {
    /// The body of an answer that reports success.
    pub fn success_body(&self) -> (r: Option<&String>)
        ensures
            match r {
                Some(b) => self@.success_body() == Some(b@),
                None => self@.success_body() is None,
            },
    {
        match self {
            Reply::Answer { status, body } => if success(*status) {
                Some(body)
            } else {
                None
            },
            Reply::Unreachable => None,
        }
    }

    /// Whether the service answered and reported success.
    pub fn succeeded(&self) -> (r: bool)
        ensures
            r == self@.succeeded(),
    {
        self.success_body().is_some()
    }
}

} // verus!
