//! The records that travel through requests and replies.

use vstd::prelude::*;

verus! {

/// The body of a request that creates a user.
#[derive(Debug)]
pub struct NewUser {
    pub name: String,
}

impl NewUser {
    /// Whether the payload may go to the store: its name is not empty.
    #[verifier::when_used_as_spec(spec_is_valid)]
    pub fn is_valid(&self) -> (valid: bool)
        ensures
            valid == self.spec_is_valid(),
    {
        !self.name.as_str().is_empty()
    }

    /// Whether the name is not empty.
    pub open spec fn spec_is_valid(&self) -> bool {
        self.name@.len() > 0
    }
}

/// A stored user.
#[derive(Clone, Debug)]
pub struct User {
    pub uid: i32,
    pub name: String,
}

/// The mathematical value of a [`User`].
pub struct UserView {
    pub uid: int,
    pub name: Seq<char>,
}

impl View for User {
    type V = UserView;

    open spec fn view(&self) -> UserView {
        UserView { uid: self.uid as int, name: self.name@ }
    }
}

impl DeepView for User {
    type V = UserView;

    open spec fn deep_view(&self) -> UserView {
        self@
    }
}

/// A numeric code with a line of text, as services exchange it.
#[derive(Debug)]
pub struct Message {
    pub code: i32,
    pub message_text: String,
}

/// The mathematical value of a [`Message`].
pub struct MessageView {
    pub code: i32,
    pub message_text: Seq<char>,
}

impl View for Message {
    type V = MessageView;

    open spec fn view(&self) -> MessageView {
        MessageView { code: self.code, message_text: self.message_text@ }
    }
}

impl Default for Message {
    /// Code zero and no text.
    fn default() -> (message: Message)
        ensures
            message.code == 0,
            message.message_text@ == Seq::<char>::empty(),
    {
        Message { code: 0, message_text: String::new() }
    }
}

/// The two path segments of the parameter route.
pub struct Params {
    pub param_1: u32,
    pub param_2: String,
}

/// The optional filters of the query route.
pub struct FilterParams {
    pub name: Option<String>,
    pub age: Option<u32>,
    pub active: Option<bool>,
}

/// One textual substitution: every occurrence of `old_str` becomes `new_str`.
pub struct ReplaceParams {
    pub old_str: String,
    pub new_str: String,
}

} // verus!
