//! The error every fallible operation of the library reports.
use vstd::prelude::*;

verus! {

/// An error with a message for the user; `reported` is set once the error has
/// already been shown in the chosen output format.
#[derive(Debug, Clone, PartialEq, Eq)]
pub struct AegisError {
    message: String,
    reported: bool,
}

impl View for AegisError {
    type V = (Seq<char>, bool);

    closed spec fn view(&self) -> (Seq<char>, bool) {
        (self.message@, self.reported)
    }
}

impl AegisError {
    /// An error that has not been shown to the user yet.
    pub fn new(message: String) -> (e: AegisError)
        ensures
            e@ == (message@, false),
    {
        AegisError { message, reported: false }
    }

    /// An error whose report has already been printed.
    pub fn reported(message: String) -> (e: AegisError)
        ensures
            e@ == (message@, true),
    {
        AegisError { message, reported: true }
    }

    /// Whether the error has already been shown to the user.
    pub fn was_reported(&self) -> (r: bool)
        ensures
            r == self@.1,
    {
        self.reported
    }

    /// The text shown for the error.
    pub fn message(&self) -> (m: &str)
        ensures
            m@ == self@.0,
    {
        self.message.as_str()
    }
}

/// `e` is a fresh (not yet reported) error with message `m`.
pub open spec fn fails_with(e: AegisError, m: Seq<char>) -> bool {
    e@ == (m, false)
}

/// `r` is the outcome that `s` describes: success, or a fresh error with the message
/// that `s` gives.
pub open spec fn unit_outcome(r: Result<(), AegisError>, s: Result<(), Seq<char>>) -> bool {
    match (r, s) {
        (Ok(_), Ok(_)) => true,
        (Err(e), Err(m)) => fails_with(e, m),
        _ => false,
    }
}

/// `r` is the outcome that `s` describes: the text that `s` gives, or a fresh error
/// with the message that `s` gives.
pub open spec fn text_outcome(r: Result<String, AegisError>, s: Result<Seq<char>, Seq<char>>) -> bool {
    match (r, s) {
        (Ok(x), Ok(y)) => x@ == y,
        (Err(e), Err(m)) => fails_with(e, m),
        _ => false,
    }
}

} // verus!
