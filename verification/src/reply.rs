//! What a handler answers: a status and a typed body. Turning the body into
//! bytes is left to the server.

use crate::run::Run;
use vstd::prelude::*;

verus! {

/// Status of every successful reply.
pub const OK: u16 = 200;

/// The uniform error envelope, the only body of a failed request.
#[derive(Clone, Debug, PartialEq, Eq)]
pub struct ErrorMessage {
    /// The numeric code of the error.
    pub code: u32,
    /// The text shown to the client.
    pub message: String,
}

/// An error envelope as a mathematical value.
pub struct ErrorMessageView {
    pub code: u32,
    pub message: Seq<char>,
}

impl View for ErrorMessage {
    type V = ErrorMessageView;

    open spec fn view(&self) -> ErrorMessageView {
        ErrorMessageView { code: self.code, message: self.message@ }
    }
}

/// The body of a reply.
#[derive(Clone, Debug, PartialEq, Eq)]
pub enum Body {
    /// The record that a create request made.
    Run(Run),
    /// The records of a scope.
    Runs(Vec<Run>),
    /// The envelope of a failure.
    Error(ErrorMessage),
}

/// A body as a mathematical value.
pub enum BodyView {
    Run(Run),
    Runs(Seq<Run>),
    Error(ErrorMessageView),
}

impl View for Body {
    type V = BodyView;

    open spec fn view(&self) -> BodyView {
        match *self {
            Body::Run(run) => BodyView::Run(run),
            Body::Runs(runs) => BodyView::Runs(runs@),
            Body::Error(envelope) => BodyView::Error(envelope@),
        }
    }
}

/// A reply: the HTTP status and the body to send with it.
#[derive(Clone, Debug, PartialEq, Eq)]
pub struct Reply {
    pub status: u16,
    pub body: Body,
}

/// A reply as a mathematical value.
pub struct ReplyView {
    pub status: u16,
    pub body: BodyView,
}

impl View for Reply {
    type V = ReplyView;

    open spec fn view(&self) -> ReplyView {
        ReplyView { status: self.status, body: self.body@ }
    }
}

/// The reply that carries the envelope `code`, `message` under `status`.
pub open spec fn error_reply(status: u16, code: u32, message: Seq<char>) -> ReplyView {
    ReplyView { status, body: BodyView::Error(ErrorMessageView { code, message }) }
}

} // verus!
