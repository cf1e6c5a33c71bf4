use vstd::prelude::*;

verus! {

/// What went wrong with a call to the web API.
///
/// A failed credential lookup, a transport failure, an undecodable body and a
/// broken catalog invariant all surface as this one variant; the text tells
/// them apart.
#[derive(Debug, PartialEq, Eq)]
pub enum Error {
    WebApiError(String),
}

impl Error {
    /// The text that the error carries.
    pub open spec fn message(&self) -> Seq<char> {
        match self {
            Error::WebApiError(text) => text@,
        }
    }

    /// An error that carries `text`.
    pub fn new(text: &str) -> (err: Error)
        ensures
            err.message() == text@,
    {
        Error::WebApiError(String::from_str(text))
    }

    /// The text that the error carries, as an owned string.
    pub fn to_string(&self) -> (text: String)
        ensures
            text@ == self.message(),
    {
        match self {
            Error::WebApiError(text) => text.clone(),
        }
    }
}

} // verus!
