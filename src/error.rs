use vstd::prelude::*;

verus! {

/// Errors reported by the library.
#[derive(Debug)]
pub enum Error {
    /// A step outside the sandboxed child failed.
    FnError(String),
    /// The policy text could not be rendered or deserialized, or it breaks
    /// one of the policy's invariants.
    ParseConfigurationError(String),
}

pub type ResultWithError<T> = Result<T, Error>;

impl Error {
    /// The human-readable message carried by the error.
    pub fn message(&self) -> (r: &String)
        ensures
            r == match self {
                Error::FnError(m) => m,
                Error::ParseConfigurationError(m) => m,
            },
    {
        match self {
            Error::FnError(m) => m,
            Error::ParseConfigurationError(m) => m,
        }
    }
}

} // verus!
