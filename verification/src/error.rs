//! Categorised errors.

use vstd::prelude::*;

verus! {

/// Broad classification of an [`Error`].
#[derive(Debug, Clone, Copy, PartialEq, Eq, Structural)]
pub enum ErrorCategory {
    /// The host lacks something the operation needs (e.g. a tray host).
    UnsupportedPlatform,
    /// Anything without a more specific category.
    Other,
}

/// An error with a category and a user-facing message.
#[derive(Debug, Clone)]
pub struct Error {
    /// What kind of failure this is.
    pub category: ErrorCategory,
    /// Human-readable explanation.
    pub message: String,
}

impl Error {
    /// An error of category [`ErrorCategory::Other`].
    pub fn other(message: String) -> (e: Error)
        ensures
            e.category == ErrorCategory::Other,
            e.message@ == message@,
    {
        Error { category: ErrorCategory::Other, message }
    }

    /// An error of category [`ErrorCategory::UnsupportedPlatform`].
    pub fn unsupported_platform(message: String) -> (e: Error)
        ensures
            e.category == ErrorCategory::UnsupportedPlatform,
            e.message@ == message@,
    {
        Error { category: ErrorCategory::UnsupportedPlatform, message }
    }

    /// The message, as shown to the user.
    pub fn text(&self) -> (t: String)
        ensures
            t@ == self.message@,
    {
        self.message.clone()
    }
}

} // verus!
