use vstd::prelude::*;

verus! {

/// Why an operation failed.
#[derive(Clone, Copy, Debug, PartialEq, Eq, Structural)]
pub enum ChatError {
    /// The record store could not be opened, read or written.
    StoreUnavailable,
    /// The credential cannot be sent, or the service turned it down.
    Auth,
    /// The request did not reach the service, or the service answered
    /// with a status outside 200..=299.
    Transport,
    /// The service answered, but not with a completion that has a choice.
    MalformedResponse,
}

impl ChatError {
    /// The sentence shown to the user for this error.
    pub open spec fn text(self) -> Seq<char> {
        match self {
            ChatError::StoreUnavailable => "the settings store is unavailable"@,
            ChatError::Auth => "the API key was not accepted"@,
            ChatError::Transport => "the request to the completion service failed"@,
            ChatError::MalformedResponse => "the completion service sent an unreadable answer"@,
        }
    }

    /// The sentence for this error, as text to print.
    pub fn message(&self) -> (shown: String)
        ensures
            shown@ == self.text(),
    {
        match self {
            ChatError::StoreUnavailable => "the settings store is unavailable".to_string(),
            ChatError::Auth => "the API key was not accepted".to_string(),
            ChatError::Transport => "the request to the completion service failed".to_string(),
            ChatError::MalformedResponse => "the completion service sent an unreadable answer".to_string(),
        }
    }
}

} // verus!
