//! The ways in which the library's operations fail.

use vstd::prelude::*;

verus! {

/// What went wrong.
#[derive(Clone, Copy, Debug, PartialEq, Eq, Structural)]
pub enum Error {
    /// What was asked for is not there.
    NotFound,
    /// Two lists that are walked side by side differ in length.
    NotSameLen,
    /// A text that should be a number is none.
    ParseInt,
    /// A point in time that no calendar date stands for.
    OutOfRange,
    /// A text that should be a date is none.
    ParseDate,
    /// A number is too great or too small for what it stands for.
    Range,
    /// The channel failed for another reason than a missing message.
    Channel,
}

impl Error {
    /// The sentence that describes an error.
    pub open spec fn message(self) -> Seq<char> {
        match self {
            Error::NotFound => "Not Found (LIB Error)"@,
            Error::NotSameLen => "Two Iterators are not the same len."@,
            Error::ParseInt => "input is not a number that fits"@,
            Error::OutOfRange => "timestamp out of range"@,
            Error::ParseDate => "input is not an RFC 3339 date"@,
            Error::Range => "number out of range"@,
            Error::Channel => "the channel refused the request"@,
        }
    }

    /// The sentence that describes an error.
    pub fn text(&self) -> (r: String)
        ensures
            r@ == self.message(),
    {
        match self {
            Error::NotFound => "Not Found (LIB Error)".to_owned(),
            Error::NotSameLen => "Two Iterators are not the same len.".to_owned(),
            Error::ParseInt => "input is not a number that fits".to_owned(),
            Error::OutOfRange => "timestamp out of range".to_owned(),
            Error::ParseDate => "input is not an RFC 3339 date".to_owned(),
            Error::Range => "number out of range".to_owned(),
            Error::Channel => "the channel refused the request".to_owned(),
        }
    }
}

} // verus!
