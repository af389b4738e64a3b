//! The failure taxonomy of the client. Every failure is terminal for
//! the current call and carries a human-readable message.

use crate::text::{spec_decimal, u32_to_string};
use vstd::prelude::*;

verus! {

/// Why a call failed. `Transport` is raised by the code that performs
/// the HTTP exchange; the library itself never produces it.
#[derive(Debug, PartialEq)]
pub enum ClientError {
    /// A required configuration entry is absent; holds the key to set.
    MissingCredential { key: String },
    /// The input text is over the accepted size.
    InputTooLarge,
    /// The HTTP exchange itself failed (network fault, timeout).
    Transport { message: String },
    /// A failing HTTP status, or an error reported in the body.
    Api { status: u16, message: String },
    /// The response body is not the expected JSON shape.
    ResponseParse,
    /// A well-formed response with no choices.
    EmptyResponse,
}

/// The text that [`ClientError::message`] returns.
pub open spec fn spec_error_message(e: ClientError) -> Seq<char> {
    match e {
        ClientError::MissingCredential { key } => "API key not configured. Please set '"@ + key@
            + "' in Zed settings."@,
        ClientError::InputTooLarge => "Input too large (max 100,000 characters)"@,
        ClientError::Transport { message } => "API request failed: "@ + message@,
        ClientError::Api { status, message } => "API error ("@ + spec_decimal(status as nat)
            + "): "@ + message@,
        ClientError::ResponseParse => "Failed to parse API response"@,
        ClientError::EmptyResponse => "No response from API"@,
    }
}

impl ClientError {
    /// The failure as the human-readable message handed to the caller.
    pub fn message(&self) -> (r: String)
        ensures
            r@ == spec_error_message(*self),
    {
        match self {
            ClientError::MissingCredential { key } => {
                let mut m: String = String::from_str("API key not configured. Please set '");
                m.append(key.as_str());
                m.append("' in Zed settings.");
                m
            },
            ClientError::InputTooLarge => String::from_str(
                "Input too large (max 100,000 characters)",
            ),
            ClientError::Transport { message } => {
                let mut m: String = String::from_str("API request failed: ");
                m.append(message.as_str());
                m
            },
            ClientError::Api { status, message } => {
                let mut m: String = String::from_str("API error (");
                let d: String = u32_to_string(*status as u32);
                m.append(d.as_str());
                m.append("): ");
                m.append(message.as_str());
                m
            },
            ClientError::ResponseParse => String::from_str("Failed to parse API response"),
            ClientError::EmptyResponse => String::from_str("No response from API"),
        }
    }
}

} // verus!
