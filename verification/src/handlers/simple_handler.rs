//! Handlers that need no storage.

use vstd::prelude::*;
use vstd::string::StringExecFns;
use vstd::string::is_ascii_spec_bytes;
use http::HeaderMap;
use crate::domain::{FilterParams, Message, MessageView, Params};
use crate::reply::{text_reply, Reply, ReplyView, EXPECTATION_FAILED, OK, UNAUTHORIZED};
use crate::text::{bool_text, bool_word, decimal, push_decimal, push_signed_decimal, signed_decimal};
use crate::wire::{checked_status, first_header, header_value, valid_status};

verus! {

/// The liveness probe: always 200 with the literal `PONG!`.
pub fn get_pong() -> (reply: Reply)
    ensures
        reply@ == text_reply(200, "PONG!"@),
{
    Reply::text(OK, "PONG!")
}

/// The bytes of a text whose characters are all ASCII.
pub open spec fn ascii_bytes(text: Seq<char>) -> Seq<u8> {
    Seq::new(text.len(), |i: int| text[i] as u8)
}

/// Whether `bytes` are exactly the bytes of the ASCII text `word`.
fn spells(bytes: &Vec<u8>, word: &str) -> (same: bool)
    requires
        word.is_ascii(),
    ensures
        same == (bytes@ == ascii_bytes(word@)),
{
    let expected = word.as_bytes();
    proof {
        is_ascii_spec_bytes(word);
    }
    assert(expected@ =~= ascii_bytes(word@));
    if bytes.len() != expected.len() {
        return false;
    }
    let mut i: usize = 0;
    while i < bytes.len()
        invariant
            i <= bytes.len(),
            bytes.len() == expected.len(),
            expected@ == ascii_bytes(word@),
            forall|j: int| 0 <= j < i ==> bytes@[j] == expected@[j],
        decreases bytes.len() - i,
    {
        if bytes[i] != expected[i] {
            assert(bytes@[i as int] != expected@[i as int]);
            return false;
        }
        i += 1;
    }
    assert(bytes@ =~= expected@);
    true
}

/// The reply of the protected route for the value found under the guarding
/// header: 200 for exactly `secret-value`, 401 for any other value and for
/// none.
pub open spec fn protected_reply_of(value: Option<Seq<u8>>) -> ReplyView {
    if value == Some(ascii_bytes("secret-value"@)) {
        text_reply(200, "Access Granted!"@)
    } else {
        text_reply(401, "Invalid or missing header"@)
    }
}

/// Decides the protected route from the value of the guarding header.
pub fn protected_reply(value: Option<Vec<u8>>) -> (reply: Reply)
    ensures
        reply@ == protected_reply_of(
            match value {
                Some(bytes) => Some(bytes@),
                None => None,
            },
        ),
{
    proof {
        reveal_strlit("secret-value");
    }
    match value {
        Some(bytes) => {
            if spells(&bytes, "secret-value") {
                Reply::text(OK, "Access Granted!")
            } else {
                Reply::text(UNAUTHORIZED, "Invalid or missing header")
            }
        },
        None => Reply::text(UNAUTHORIZED, "Invalid or missing header"),
    }
}

/// The protected route: looks up `X-Custom-Header` among the request's
/// headers and grants access only for `secret-value`.
pub fn protected_route(headers: &HeaderMap) -> (reply: Reply)
    ensures
        reply@ == protected_reply_of(header_value(*headers, "X-Custom-Header"@)),
{
    let value = first_header(headers, "X-Custom-Header");
    protected_reply(value)
}

/// The text that echoes the two path parameters.
pub open spec fn params_text(param_1: nat, param_2: Seq<char>) -> Seq<char> {
    "Parameter 1: "@ + decimal(param_1) + ", Parameter 2: "@ + param_2
}

/// The parameter route: 200 with both path parameters echoed.
pub fn get_params(params: Params) -> (reply: Reply)
    ensures
        reply@ == text_reply(200, params_text(params.param_1 as nat, params.param_2@)),
{
    let mut line = String::from_str("Parameter 1: ");
    push_decimal(&mut line, params.param_1);
    line.append(", Parameter 2: ");
    line.append(params.param_2.as_str());
    Reply::text(OK, line.as_str())
}

/// The text that echoes the filters, an absent one by its default: no name,
/// age zero, not active.
pub open spec fn filters_text(name: Option<Seq<char>>, age: Option<nat>, active: Option<bool>) -> Seq<char> {
    "Filters: name="@ + (match name {
        Some(text) => text,
        None => Seq::<char>::empty(),
    }) + ", age="@ + decimal(
        match age {
            Some(years) => years,
            None => 0,
        },
    ) + ", active="@ + bool_word(
        match active {
            Some(flag) => flag,
            None => false,
        },
    )
}

/// The query route: 200 with the filters echoed.
pub fn get_question(params: FilterParams) -> (reply: Reply)
    ensures
        reply@ == text_reply(
            200,
            filters_text(
                match params.name {
                    Some(text) => Some(text@),
                    None => None,
                },
                match params.age {
                    Some(years) => Some(years as nat),
                    None => None,
                },
                params.active,
            ),
        ),
{
    let mut line = String::from_str("Filters: name=");
    match &params.name {
        Some(text) => {
            line.append(text.as_str());
        },
        None => {
            assert(line@ + Seq::<char>::empty() =~= line@);
        },
    }
    line.append(", age=");
    let age: u32 = match params.age {
        Some(years) => years,
        None => 0,
    };
    push_decimal(&mut line, age);
    line.append(", active=");
    let active = match params.active {
        Some(flag) => flag,
        None => false,
    };
    line.append(bool_text(active));
    Reply::text(OK, line.as_str())
}

/// The text that echoes a posted message.
pub open spec fn body_data_text(message: MessageView) -> Seq<char> {
    "Received message with code: "@ + signed_decimal(message.code as int) + ", text: "@
        + message.message_text
}

/// The body route: 200 with the posted message echoed.
pub fn post_body_data(payload: Message) -> (reply: Reply)
    ensures
        reply@ == text_reply(200, body_data_text(payload@)),
{
    let mut line = String::from_str("Received message with code: ");
    push_signed_decimal(&mut line, payload.code);
    line.append(", text: ");
    line.append(payload.message_text.as_str());
    Reply::text(OK, line.as_str())
}

/// How the call to the neighbouring service ended.
pub enum ExternalOutcome {
    /// No response came back.
    Unreachable,
    /// A response came back; its body held a message, or did not parse.
    Answered(Option<Message>),
}

/// The mathematical value of an [`ExternalOutcome`].
pub enum ExternalOutcomeView {
    Unreachable,
    Answered(Option<MessageView>),
}

impl View for ExternalOutcome {
    type V = ExternalOutcomeView;

    open spec fn view(&self) -> ExternalOutcomeView {
        match self {
            ExternalOutcome::Unreachable => ExternalOutcomeView::Unreachable,
            ExternalOutcome::Answered(Some(message)) => ExternalOutcomeView::Answered(
                Some(message@),
            ),
            ExternalOutcome::Answered(None) => ExternalOutcomeView::Answered(None),
        }
    }
}

/// The address that the rainy-day route calls: `/pong` under the configured
/// base, or under `http://localhost:3001` where none is configured.
pub open spec fn external_url_of(configured: Option<Seq<char>>) -> Seq<char> {
    (match configured {
        Some(base) => base,
        None => "http://localhost:3001"@,
    }) + "/pong"@
}

/// Builds the address that the rainy-day route calls.
pub fn external_url(configured: Option<String>) -> (url: String)
    ensures
        url@ == external_url_of(
            match configured {
                Some(base) => Some(base@),
                None => None,
            },
        ),
{
    let mut url = match configured {
        Some(base) => base,
        None => String::from_str("http://localhost:3001"),
    };
    url.append("/pong");
    url
}

/// The message that stands in for a response body that did not parse.
pub open spec fn unparsed_message() -> MessageView {
    MessageView { code: 400, message_text: "Failed to parse external response"@ }
}

/// The reply of the rainy-day route for each outcome of the outbound call.
/// A message's code, cut to sixteen bits, becomes the status where it is a
/// valid one, and 417 where it is not; the text is followed by ` !!`.
pub open spec fn external_reply_of(outcome: ExternalOutcomeView) -> ReplyView {
    match outcome {
        ExternalOutcomeView::Unreachable => text_reply(417, "Failed to reach external service"@),
        ExternalOutcomeView::Answered(parsed) => {
            let message = match parsed {
                Some(message) => message,
                None => unparsed_message(),
            };
            let code = message.code as u16;
            text_reply(
                if valid_status(code as int) {
                    code as int
                } else {
                    417
                },
                message.message_text + " !!"@,
            )
        },
    }
}

/// The rainy-day route, after the outbound call: turns its outcome into the
/// reply.
pub fn call_external_service(outcome: ExternalOutcome) -> (reply: Reply)
    ensures
        reply@ == external_reply_of(outcome@),
        valid_status(reply@.status),
{
    match outcome {
        ExternalOutcome::Unreachable => Reply::text(
            EXPECTATION_FAILED,
            "Failed to reach external service",
        ),
        ExternalOutcome::Answered(parsed) => {
            let message = match parsed {
                Some(message) => message,
                None => Message {
                    code: 400,
                    message_text: String::from_str("Failed to parse external response"),
                },
            };
            let code: u16 = #[verifier::truncate]
            (message.code as u16);
            let status: u16 = match checked_status(code) {
                Some(status) => status,
                None => EXPECTATION_FAILED,
            };
            let mut line = message.message_text;
            line.append(" !!");
            Reply::text(status, line.as_str())
        },
    }
}

} // verus!
