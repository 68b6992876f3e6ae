//! The error taxonomy a front end sees.
//!
//! Three kinds are kept apart so none can be mistaken for another: a
//! validation failure is resolved locally, before any command is
//! dispatched; a backend failure is propagated unchanged after an
//! attempted execution; and a delivery failure says the executor side was
//! gone, which is neither of the other two.

use vstd::prelude::*;
use crate::executor::BackendError;

verus! {

/// What the message of a lost-executor error says.
pub open spec fn channel_closed_message() -> Seq<char> {
    "Command executor is no longer running"@
}

/// One failed command, by kind.
#[derive(Debug)]
pub enum ReplError {
    /// The connection string matched no known scheme or extension. The
    /// carried message already names the offending input; the command
    /// was never dispatched.
    Validation(String),
    /// The backend failed the attempted operation; its message is
    /// carried unchanged.
    Backend(BackendError),
    /// The executor side was gone before a reply arrived; fatal for this
    /// one command.
    ChannelClosed,
}

impl ReplError {
    /// The human-readable message for this failure: the validation
    /// message as built at parse time, the backend's message verbatim, or
    /// the fixed lost-executor message.
    pub fn message(&self) -> (r: String)
        ensures
            (self matches ReplError::Validation(s) ==> r@ == s@),
            (self matches ReplError::Backend(e) ==> r@ == e.message@),
            (self is ChannelClosed ==> r@ == channel_closed_message()),
    {
        match self {
            ReplError::Validation(s) => s.clone(),
            ReplError::Backend(e) => e.message.clone(),
            ReplError::ChannelClosed => "Command executor is no longer running".to_owned(),
        }
    }
}

} // verus!
