use vstd::prelude::*;
use vstd::string::StringExecFns;

verus! {

/// The single recoverable error of the library: raised only when a session
/// acquisition fails because another session is already active, and by the
/// drawing operation when handed text it cannot forward.
///
/// It carries a human-readable message; the view of the error is that
/// message.
#[derive(Debug)]
pub struct ConsoleError {
    message: String,
}

impl View for ConsoleError {
    type V = Seq<char>;

    closed spec fn view(&self) -> Seq<char> {
        self.message@
    }
}

impl ConsoleError {
    /// Builds an error carrying the given message.
    pub fn new(message: &str) -> (e: ConsoleError)
        ensures
            e@ == message@,
    {
        ConsoleError { message: String::from_str(message) }
    }

    /// The human-readable message of this error.
    pub fn message(&self) -> (m: &str)
        ensures
            m@ == self@,
    {
        self.message.as_str()
    }
}

} // verus!
