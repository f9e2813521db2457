//! The envelope of the engine's reply: status code and message.
use crate::errors::OsrmError;
use vstd::prelude::*;

verus! {

/// The message carries text.
pub open spec fn has_text(message: Option<String>) -> bool {
    message is Some && message->0@.len() > 0
}

/// What a reply of the engine stands for: no message at all is a boundary
/// failure; a failure status carries the engine's message verbatim; otherwise
/// the message is the JSON payload.
pub open spec fn reply_outcome(code: i32, message: Option<String>) -> Result<String, OsrmError> {
    if !has_text(message) {
        Err(OsrmError::EmptyResult)
    } else if code != 0 {
        Err(OsrmError::EngineError(message->0))
    } else {
        Ok(message->0)
    }
}

/// Reads the status code and message that one native call returned.
pub fn read_reply(code: i32, message: Option<String>) -> (r: Result<String, OsrmError>)
    ensures
        r == reply_outcome(code, message),
{
    match message {
        None => Err(OsrmError::EmptyResult),
        Some(text) => {
            if text.as_str().is_empty() {
                Err(OsrmError::EmptyResult)
            } else if code != 0 {
                Err(OsrmError::EngineError(text))
            } else {
                Ok(text)
            }
        },
    }
}

} // verus!
