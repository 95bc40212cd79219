//! A minimal client library for chat-completion services.
//!
//! The library builds the full request description (URL, headers, JSON body)
//! for a chat call, and extracts the assistant's reply from the JSON response
//! body. Sending the request over the network is left to the binary around
//! the library.

use vstd::prelude::*;

pub mod api;
pub mod json;
pub mod parse;

verus! {

/// The failures the chat pipeline can report. Every failure is fatal to the
/// caller; only a missing reply field inside well-formed JSON is recovered
/// (with a sentinel string) and so does not appear here.
#[derive(Clone, Copy, Debug, PartialEq, Eq, Structural)]
pub enum ChatError {
    /// No response arrived from the service.
    NoResponse,
    /// A response arrived, but its body could not be read as text.
    UnreadableBody,
    /// The body was read, but is not well-formed JSON.
    ParseFailed,
    /// The credential environment variable is not set.
    MissingCredential,
}

impl ChatError {
    /// The diagnostic printed when the pipeline aborts on this failure.
    pub fn message(&self) -> (r: String)
        ensures
            *self == ChatError::NoResponse ==> r@ == "No response"@,
            *self == ChatError::UnreadableBody ==> r@ == "Failed to read response text"@,
            *self == ChatError::ParseFailed ==> r@ == "Failed to parse JSON"@,
            *self == ChatError::MissingCredential ==> r@ == "OPENAI_API_KEY must be set"@,
    {
        match self {
            ChatError::NoResponse => String::from_str("No response"),
            ChatError::UnreadableBody => String::from_str("Failed to read response text"),
            ChatError::ParseFailed => String::from_str("Failed to parse JSON"),
            ChatError::MissingCredential => String::from_str("OPENAI_API_KEY must be set"),
        }
    }
}

} // verus!
