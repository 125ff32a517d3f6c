//! What a refused or failed request is answered.

use vstd::prelude::*;

verus! {

/// The statuses with which requests are refused.
#[derive(Debug, Clone, Copy, PartialEq, Eq, Structural)]
pub enum StatusCode {
    BadRequest,
    Unauthorized,
    NotFound,
    UnprocessableEntity,
    InternalServerError,
}

impl StatusCode {
    /// The number that stands for this status on the wire.
    pub open spec fn number(self) -> u16 {
        match self {
            StatusCode::BadRequest => 400,
            StatusCode::Unauthorized => 401,
            StatusCode::NotFound => 404,
            StatusCode::UnprocessableEntity => 422,
            StatusCode::InternalServerError => 500,
        }
    }

    pub fn as_u16(self) -> (number: u16)
        ensures
            number == self.number(),
    {
        match self {
            StatusCode::BadRequest => 400,
            StatusCode::Unauthorized => 401,
            StatusCode::NotFound => 404,
            StatusCode::UnprocessableEntity => 422,
            StatusCode::InternalServerError => 500,
        }
    }
}

/// Why a request was not served.
#[derive(Debug)]
pub enum Error {
    /// The request is answered with this status and this message.
    Http(StatusCode, String),
    /// The server, or a service that it relies on, failed in the way that the text describes.
    Internal(String),
}

pub enum ErrorView {
    Http(StatusCode, Seq<char>),
    Internal(Seq<char>),
}

impl DeepView for Error {
    type V = ErrorView;

    open spec fn deep_view(&self) -> ErrorView {
        match self {
            Error::Http(status, message) => ErrorView::Http(*status, message@),
            Error::Internal(cause) => ErrorView::Internal(cause@),
        }
    }
}

impl Error {
    /// An answer with the given status and message.
    pub fn http(status: StatusCode, message: &str) -> (error: Error)
        ensures
            error.deep_view() == ErrorView::Http(status, message@),
            error matches Error::Http(given, text) && given == status && text@ == message@,
    {
        Error::Http(status, message.to_owned())
    }

    /// A failure of the server itself.
    pub fn internal(cause: &str) -> (error: Error)
        ensures
            error.deep_view() == ErrorView::Internal(cause@),
            error matches Error::Internal(text) && text@ == cause@,
    {
        Error::Internal(cause.to_owned())
    }
}

/// The mathematical value of what a fallible function returned.
pub open spec fn outcome<T: DeepView>(result: Result<T, Error>) -> Result<T::V, ErrorView> {
    match result {
        Ok(value) => Ok(value.deep_view()),
        Err(error) => Err(error.deep_view()),
    }
}

/// The value of an error says what the error says.
pub proof fn an_error_says_what_it_was_made_with(
    status: StatusCode,
    message: String,
    cause: String,
)
    ensures
        Error::Http(status, message).deep_view() == ErrorView::Http(status, message@),
        Error::Internal(cause).deep_view() == ErrorView::Internal(cause@),
{
}

} // verus!
