//! Building blocks for a plugin that forwards a prompt to a hosted
//! chat-completion API and hands back the first answer.
//!
//! One call of such a plugin goes through these steps:
//!
//! 1. the raw configuration is checked: [`get_config_values`];
//! 2. the request is built: [`completion_request`];
//! 3. the request is sent, and status and body of the answer come back;
//! 4. the text of the body is taken out: [`get_completion`];
//! 5. the text is decoded into a [`response::ChatResult`];
//! 6. the completion is taken from it: [`completion`].
//!
//! The library does steps 1, 2, 4 and 6, on plain values. Reading the host's
//! configuration, floating-point parsing and printing, the HTTP call and the
//! decoding of JSON are the part of the program around it. [`models`] lists
//! a provider's catalog as JSON.

pub mod catalog;
pub mod config;
pub mod error;
pub mod json;
pub mod listing;
pub mod request;
pub mod response;
pub mod temperature;
pub mod text;

pub use crate::config::get_config_values;
pub use crate::listing::models;
pub use crate::request::completion_request;
pub use crate::response::{completion, get_completion};
