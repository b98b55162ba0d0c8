//! The service's error value: a message that travels back to the caller.
use vstd::prelude::*;

verus! {

/// An error reported by a workflow or by the infrastructure it drives.
#[derive(Debug)]
pub struct Error {
    message: String,
}

impl View for Error {
    type V = Seq<char>;

    closed spec fn view(&self) -> Seq<char> {
        self.message@
    }
}

impl Error {
    /// An error carrying `message`.
    pub fn new(message: &str) -> (error: Error)
        ensures
            error@ == message@,
    {
        Error { message: message.to_owned() }
    }

    /// The message this error carries.
    pub fn message(&self) -> (message: &str)
        ensures
            message@ == self@,
    {
        self.message.as_str()
    }
}

} // verus!
