//! What a handler hands back: a status code and a body.

use vstd::prelude::*;
use vstd::string::StringExecFns;
use crate::domain::{User, UserView};

verus! {

/// The body of a reply: a line of text, or a list of users that the
/// transport writes as a JSON array.
#[derive(Debug)]
pub enum Body {
    Text(String),
    Users(Vec<User>),
}

/// The mathematical value of a [`Body`].
pub enum BodyView {
    Text(Seq<char>),
    Users(Seq<UserView>),
}

impl View for Body {
    type V = BodyView;

    open spec fn view(&self) -> BodyView {
        match self {
            Body::Text(text) => BodyView::Text(text@),
            Body::Users(users) => BodyView::Users(users.deep_view()),
        }
    }
}

/// A reply: produced once per request, by a handler or by the pipeline.
#[derive(Debug)]
pub struct Reply {
    pub status: u16,
    pub body: Body,
}

/// The mathematical value of a [`Reply`].
pub struct ReplyView {
    pub status: int,
    pub body: BodyView,
}

impl View for Reply {
    type V = ReplyView;

    open spec fn view(&self) -> ReplyView {
        ReplyView { status: self.status as int, body: self.body@ }
    }
}

/// The value of a reply that carries `text` under `status`.
pub open spec fn text_reply(status: int, text: Seq<char>) -> ReplyView {
    ReplyView { status, body: BodyView::Text(text) }
}

pub const OK: u16 = 200;

pub const CREATED: u16 = 201;

pub const UNAUTHORIZED: u16 = 401;

pub const REQUEST_TIMEOUT: u16 = 408;

pub const PAYLOAD_TOO_LARGE: u16 = 413;

pub const EXPECTATION_FAILED: u16 = 417;

pub const INTERNAL_SERVER_ERROR: u16 = 500;

impl Reply {
    /// A reply that carries a copy of `text` under `status`.
    pub fn text(status: u16, text: &str) -> (reply: Reply)
        ensures
            reply@ == text_reply(status as int, text@),
    {
        Reply { status, body: Body::Text(String::from_str(text)) }
    }

    /// The text of the body, if the body is text.
    pub fn body_text(&self) -> (text: Option<&str>)
        ensures
            match self.body {
                Body::Text(line) => text.is_some() && text.unwrap()@ == line@,
                Body::Users(_) => text.is_none(),
            },
    {
        match &self.body {
            Body::Text(line) => Some(line.as_str()),
            Body::Users(_) => None,
        }
    }

    /// Whether the status is a server error, which the observability layer
    /// logs as a failure.
    pub fn is_server_error(&self) -> (failed: bool)
        ensures
            failed == (500 <= self.status <= 599),
    {
        500 <= self.status && self.status <= 599
    }
}

} // verus!
