//! The two ways in which a pagination call fails.

use vstd::prelude::*;

verus! {

/// Why a call failed.
#[derive(Debug, PartialEq, Eq)]
pub enum PageError {
    /// The caller sent something that cannot be used: a cursor that does not
    /// decode, or a key that its column's type does not accept.
    InvalidArgument(String),
    /// Something went wrong on this side; no detail is given to the caller.
    Internal,
}

/// A [`PageError`] as a mathematical value.
pub enum Failure {
    InvalidArgument(Seq<char>),
    Internal,
}

impl View for PageError {
    type V = Failure;

    open spec fn view(&self) -> Failure {
        match self {
            PageError::InvalidArgument(message) => Failure::InvalidArgument(message@),
            PageError::Internal => Failure::Internal,
        }
    }
}

impl PageError {
    /// The failure of a caller whose input was refused for the reason given.
    pub fn invalid_argument(message: &str) -> (e: PageError)
        ensures
            e@ == Failure::InvalidArgument(message@),
    {
        PageError::InvalidArgument(message.to_owned())
    }

    /// The failure that tells the caller nothing.
    pub fn internal() -> (e: PageError)
        ensures
            e@ == Failure::Internal,
    {
        PageError::Internal
    }

    /// Whether the caller's input was at fault.
    pub fn is_invalid_argument(&self) -> (b: bool)
        ensures
            b == (self@ is InvalidArgument),
    {
        match self {
            PageError::InvalidArgument(_) => true,
            PageError::Internal => false,
        }
    }

    /// The reason to show to the caller: the one given for a refused input,
    /// and nothing for an internal failure.
    pub fn message(&self) -> (text: String)
        ensures
            text@ == match self@ {
                Failure::InvalidArgument(message) => message,
                Failure::Internal => Seq::<char>::empty(),
            },
    {
        match self {
            PageError::InvalidArgument(message) => message.clone(),
            PageError::Internal => String::new(),
        }
    }
}

} // verus!
