//! Error messages handed across the C interface.
use vstd::prelude::*;

use crate::text::has_char;

verus! {

/// An error's message, as a C string: a message holding a NUL character
/// cannot be one, and is replaced by the empty message.
#[derive(Debug)]
pub struct Error {
    message: String,
}

impl View for Error {
    type V = Seq<char>;

    closed spec fn view(&self) -> Seq<char> {
        self.message@
    }
}

impl Error {
    pub fn new(message: &str) -> (e: Error)
        ensures
            e@ == if message@.contains('\0') { Seq::<char>::empty() } else { message@ },
    {
        if has_char(message, '\0') {
            Error { message: String::new() }
        } else {
            Error { message: String::from_str(message) }
        }
    }

    pub fn message(&self) -> (m: &str)
        ensures
            m@ == self@,
    {
        self.message.as_str()
    }
}

} // verus!
