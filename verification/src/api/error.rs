//! The failure of a request.

use vstd::prelude::*;
use vstd::string::StringExecFns;

verus! {

/// A request failed; the message says why.
#[derive(Debug)]
pub struct ApiError {
    pub message: String,
}

impl ApiError {
    /// The text that the client is told.
    pub open spec fn body_text(&self) -> Seq<char> {
        "Something went wrong: "@ + self.message@
    }

    /// A failure with the given reason.
    pub fn new(message: &str) -> (r: Self)
        ensures
            r.message@ == message@,
    {
        ApiError { message: message.to_owned() }
    }

    /// The text that the client is told.
    pub fn body(&self) -> (r: String)
        ensures
            r@ == self.body_text(),
    {
        "Something went wrong: ".to_owned().concat(self.message.as_str())
    }
}

} // verus!
