//! The failure that every operation of the client reports.

use vstd::prelude::*;

verus! {

/// A failed operation. The client knows one kind of failure, a platform
/// failure, which carries a text for diagnostics: the text that the caller
/// made of a failed call, or the operation and the status that the stack
/// reported for it.
#[derive(Debug, PartialEq, Eq)]
pub enum Error {
    Other(String),
}

impl View for Error {
    type V = Seq<char>;

    /// The text that the failure carries.
    open spec fn view(&self) -> Seq<char> {
        match self {
            Error::Other(text) => text@,
        }
    }
}

impl Error {
    /// The text that the failure carries.
    pub fn message(&self) -> (text: String)
        ensures
            text@ == self@,
    {
        match self {
            Error::Other(text) => text.clone(),
        }
    }
}

/// A result as the contracts read it: the value as it is, a failure by its text.
pub open spec fn outcome<T>(result: Result<T, Error>) -> Result<T, Seq<char>> {
    match result {
        Ok(value) => Ok(value),
        Err(error) => Err(error@),
    }
}

/// A result that holds bytes as the contracts read it.
pub open spec fn bytes_outcome(result: Result<Vec<u8>, Error>) -> Result<Seq<u8>, Seq<char>> {
    match result {
        Ok(bytes) => Ok(bytes@),
        Err(error) => Err(error@),
    }
}

} // verus!
