//! The one error type of the library: a message for the user.
use vstd::prelude::*;

verus! {

/// An error that ends a command, carrying the message that is shown to the user.
#[derive(Debug)]
pub struct BelayError {
    pub message: String,
}

impl BelayError {
    /// An error with the given message.
    pub fn usage(message: &str) -> (r: Self)
        ensures
            r.message@ == message@,
    {
        BelayError { message: String::from_str(message) }
    }

    /// An error whose message is an owned string.
    pub fn from_message(message: String) -> (r: Self)
        ensures
            r.message@ == message@,
    {
        BelayError { message }
    }

    /// The message, as the error is displayed.
    pub fn to_string(&self) -> (r: String)
        ensures
            r@ == self.message@,
    {
        self.message.clone()
    }
}

} // verus!
