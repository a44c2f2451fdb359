//! Replies of the commands: `Ok` with a value, or `Err` with a message for the user.
use vstd::prelude::*;
use vstd::string::*;

verus! {

/// A reply with its message taken as a sequence of characters.
pub open spec fn reply_view<T>(reply: Result<T, String>) -> Result<T, Seq<char>> {
    match reply {
        Ok(value) => Ok(value),
        Err(message) => Err(message@),
    }
}

/// The message `label` followed by the cause of a failure.
pub fn labelled(label: &str, cause: &str) -> (message: String)
    ensures
        message@ == label@ + cause@,
{
    let message = label.to_string();
    message.concat(cause)
}

/// Turns the outcome of a step that stores something into the reply `true`, or into the
/// failure of the step unchanged.
pub fn acknowledge(stored: Result<(), String>) -> (reply: Result<bool, String>)
    ensures
        reply_view(reply) == acknowledged(reply_view(stored)),
{
    match stored {
        Ok(()) => Ok(true),
        Err(message) => Err(message),
    }
}

/// The reply to a step that stores something.
pub open spec fn acknowledged(stored: Result<(), Seq<char>>) -> Result<bool, Seq<char>> {
    match stored {
        Ok(()) => Ok(true),
        Err(message) => Err(message),
    }
}

} // verus!
