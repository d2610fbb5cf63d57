//! The ways in which preparing a request or reading a response fails.

use url::ParseError;
use vstd::prelude::*;

verus! {

/// The mathematical value of an [`Error`].
pub enum ErrorView {
    Url(ParseError),
    InvalidRequest,
    MissingField(Seq<char>),
    InvalidField(Seq<char>),
    InvalidShape,
}

/// Why a request could not be prepared or a response could not be read.
#[derive(Debug, PartialEq, Eq)]
pub enum Error {
    /// The path of the request does not resolve against the base URL.
    Url(ParseError),
    /// The server answered with its error marker in place of a result.
    InvalidRequest,
    /// The response lacks the named member.
    MissingField(String),
    /// The named member of the response holds a value of the wrong kind.
    InvalidField(String),
    /// The response as a whole is of the wrong kind.
    InvalidShape,
}

impl View for Error {
    type V = ErrorView;

    open spec fn view(&self) -> ErrorView {
        match self {
            Error::Url(cause) => ErrorView::Url(*cause),
            Error::InvalidRequest => ErrorView::InvalidRequest,
            Error::MissingField(name) => ErrorView::MissingField(name@),
            Error::InvalidField(name) => ErrorView::InvalidField(name@),
            Error::InvalidShape => ErrorView::InvalidShape,
        }
    }
}

/// The value of what a fallible step gave: the value of its result or of its
/// error.
pub open spec fn outcome<T: View>(r: Result<T, Error>) -> Result<T::V, ErrorView> {
    match r {
        Ok(value) => Ok(value@),
        Err(error) => Err(error@),
    }
}

} // verus!
