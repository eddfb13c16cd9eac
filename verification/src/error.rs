//! The errors that the core hands to its callers.

use vstd::prelude::*;

verus! {

/// What went wrong with one call. None of these ends the session.
#[derive(Debug, Clone, PartialEq, Eq)]
pub enum RQError {
    /// A frame could not be handed to the transport.
    Network,
    /// No reply came within the time allowed.
    Timeout,
    /// A reply came, but under another command name than the request's.
    CommandMismatch { expected: String, actual: String },
    /// A failed validation of some other kind, with its message.
    Other(String),
}

/// An error with its strings as sequences of characters.
pub enum RQErrorView {
    Network,
    Timeout,
    CommandMismatch { expected: Seq<char>, actual: Seq<char> },
    Other(Seq<char>),
}

impl View for RQError {
    type V = RQErrorView;

    open spec fn view(&self) -> RQErrorView {
        match *self {
            RQError::Network => RQErrorView::Network,
            RQError::Timeout => RQErrorView::Timeout,
            RQError::CommandMismatch { expected, actual } => RQErrorView::CommandMismatch {
                expected: expected@,
                actual: actual@,
            },
            RQError::Other(message) => RQErrorView::Other(message@),
        }
    }
}

} // verus!
