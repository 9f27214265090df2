//! The provider's answer: from status and body to the text of the body, and
//! from the decoded answer to the completion.
//!
//! Between the two stands the decoding of the body's JSON into a
//! [`ChatResult`], which is the caller's part.

use crate::catalog::Provider;
use crate::error::CompletionError;
use crate::text::utf8_text;
use vstd::prelude::*;
use vstd::utf8::{decode_utf8, valid_utf8};

verus! {

/// One message of an answer.
#[derive(Debug, PartialEq, Eq)]
pub struct ChatMessage {
    pub content: String,
}

/// One choice of an answer.
#[derive(Debug, PartialEq, Eq)]
pub struct ChatChoice {
    pub message: ChatMessage,
}

/// A provider's answer to a completion request.
#[derive(Debug, PartialEq, Eq)]
pub struct ChatResult {
    pub choices: Vec<ChatChoice>,
}

impl Provider {
    /// Whether an answer of this provider is held to its status: if so, any
    /// status but 200 is an error that carries the body. Otherwise the body
    /// is read whatever the status.
    pub open spec fn holds_to_status(self) -> bool {
        self == Provider::OpenAi
    }

    /// Whether an answer of this provider is held to its status.
    pub fn checks_status(&self) -> (r: bool)
        ensures
            r == self.holds_to_status(),
    {
        match self {
            Provider::OpenAi => true,
            Provider::Cloudflare => false,
        }
    }
}

/// Takes the text out of a provider's answer.
///
/// A body that is not UTF-8 is an error whatever the status. Where the
/// provider is held to its status, a status other than 200 is an error that
/// carries the status and the text of the body.
pub fn get_completion<'a>(provider: Provider, status: u16, body: &'a [u8]) -> (r: Result<
    &'a str,
    CompletionError,
>)
    ensures
        match r {
            Ok(text) => valid_utf8(body@) && (provider.holds_to_status() ==> status == 200)
                && text@ == decode_utf8(body@),
            Err(CompletionError::Api { status: s, body: b }) => valid_utf8(body@)
                && provider.holds_to_status() && status != 200 && s == status && b@
                == decode_utf8(body@),
            Err(CompletionError::InvalidUtf8) => !valid_utf8(body@),
            Err(CompletionError::NoChoices) => false,
        },
{
    let text = match utf8_text(body) {
        Some(text) => text,
        None => {
            return Err(CompletionError::InvalidUtf8);
        },
    };
    if provider.checks_status() && status != 200 {
        return Err(CompletionError::Api { status, body: text.to_owned() });
    }
    Ok(text)
}

/// The completion of a decoded answer: the content of its first choice's
/// message. An answer without choices is an error.
pub fn completion(result: &ChatResult) -> (r: Result<String, CompletionError>)
    ensures
        match r {
            Ok(text) => result.choices@.len() > 0 && text@
                == result.choices@[0].message.content@,
            Err(e) => result.choices@.len() == 0 && e is NoChoices,
        },
{
    if result.choices.len() == 0 {
        return Err(CompletionError::NoChoices);
    }
    Ok(result.choices[0].message.content.clone())
}

} // verus!
