//! What can go wrong, as plain values.
//!
//! Both error types offer the text that is shown to the host; a
//! configuration error also carries the code that the host is given.

use crate::text::{decimal, decimal_text};
use vstd::prelude::*;

verus! {

/// Why a configuration was turned down.
#[derive(Clone, Copy, Debug, PartialEq, Eq, Structural)]
pub enum ConfigError {
    /// No API key was configured.
    ApiKeyNotFound,
    /// A model was named, and no catalog entry answers to that name.
    ModelNotFound,
    /// A temperature was given that does not read as a number.
    TemperatureNotAFloat,
    /// A temperature was given that is not a number from 0.0 to 1.0.
    TemperatureOutOfRange,
}

impl ConfigError {
    /// The text of this error.
    pub open spec fn text(self) -> Seq<char> {
        match self {
            ConfigError::ApiKeyNotFound => "API key not found"@,
            ConfigError::ModelNotFound => "Model not found"@,
            ConfigError::TemperatureNotAFloat => "Temperature must be a float"@,
            ConfigError::TemperatureOutOfRange => "Temperature must be between 0.0 and 1.0"@,
        }
    }

    /// The text of this error, for the host's log and for its caller.
    pub fn message(&self) -> (r: String)
        ensures
            r@ == self.text(),
    {
        match self {
            ConfigError::ApiKeyNotFound => "API key not found".to_owned(),
            ConfigError::ModelNotFound => "Model not found".to_owned(),
            ConfigError::TemperatureNotAFloat => "Temperature must be a float".to_owned(),
            ConfigError::TemperatureOutOfRange => {
                "Temperature must be between 0.0 and 1.0".to_owned()
            },
        }
    }

    /// The code handed to the host with this error: never zero, and the same
    /// for every configuration error.
    pub fn return_code(&self) -> (r: i32)
        ensures
            r == 1,
    {
        1
    }
}

/// Why a provider's answer gave no completion.
#[derive(Debug, PartialEq, Eq)]
pub enum CompletionError {
    /// The provider answered with a status other than 200.
    Api { status: u16, body: String },
    /// The body of the answer is not UTF-8.
    InvalidUtf8,
    /// The answer holds no choice.
    NoChoices,
}

impl CompletionError {
    /// The text of this error. For a refused call it names the status and
    /// repeats the body.
    pub open spec fn text(self) -> Seq<char> {
        match self {
            CompletionError::Api { status, body } => "error calling API\nStatus Code: "@ + decimal(
                status as nat,
            ) + "\n Response: "@ + body@,
            CompletionError::InvalidUtf8 => "response body is not valid UTF-8"@,
            CompletionError::NoChoices => "no completion returned"@,
        }
    }

    /// The text of this error.
    pub fn message(&self) -> (r: String)
        ensures
            r@ == self.text(),
    {
        match self {
            CompletionError::Api { status, body } => {
                let mut text = "error calling API\nStatus Code: ".to_owned();
                text.append(decimal_text(*status).as_str());
                text.append("\n Response: ");
                text.append(body.as_str());
                text
            },
            CompletionError::InvalidUtf8 => "response body is not valid UTF-8".to_owned(),
            CompletionError::NoChoices => "no completion returned".to_owned(),
        }
    }
}

} // verus!
