//! The fixed messages that the services answer each other with.

use vstd::prelude::*;
use vstd::string::StringExecFns;
use crate::domain::{Message, MessageView};

verus! {

/// A message with code 200 and a copy of `text`.
fn answer(text: &str) -> (message: Message)
    ensures
        message@ == (MessageView { code: 200, message_text: text@ }),
{
    let mut message = Message::default();
    message.code = 200;
    message.message_text = String::from_str(text);
    message
}

/// The answer of the first service: code 200, text `PONG!`.
pub fn get_ayo() -> (message: Message)
    ensures
        message@ == (MessageView { code: 200, message_text: "PONG!"@ }),
{
    answer("PONG!")
}

/// The answer of the neighbouring service to `/pong`: code 200, text
/// `Ladaradiradadada!`.
pub fn get_answer1() -> (message: Message)
    ensures
        message@ == (MessageView { code: 200, message_text: "Ladaradiradadada!"@ }),
{
    answer("Ladaradiradadada!")
}

/// The second answer of the neighbouring service: code 200, text `E-E!`.
pub fn get_answer2() -> (message: Message)
    ensures
        message@ == (MessageView { code: 200, message_text: "E-E!"@ }),
{
    answer("E-E!")
}

} // verus!
