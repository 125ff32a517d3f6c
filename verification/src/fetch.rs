//! Requests that the server makes to other web services.

use crate::error::{Error, ErrorView, outcome};
use vstd::prelude::*;

verus! {

#[derive(Debug, Clone, Copy, PartialEq, Eq, Structural)]
pub enum Method {
    Get,
    Post,
}

/// What a request carries.
pub enum Body {
    Empty,
    /// Names and values, as a browser sends a form.
    Form(Vec<(String, String)>),
    /// An object of JSON with these names and text values.
    Json(Vec<(String, String)>),
}

pub enum BodyView {
    Empty,
    Form(Seq<(Seq<char>, Seq<char>)>),
    Json(Seq<(Seq<char>, Seq<char>)>),
}

impl DeepView for Body {
    type V = BodyView;

    open spec fn deep_view(&self) -> BodyView {
        match self {
            Body::Empty => BodyView::Empty,
            Body::Form(fields) => BodyView::Form(fields.deep_view()),
            Body::Json(fields) => BodyView::Json(fields.deep_view()),
        }
    }
}

/// A request to another web service.
pub struct HttpRequest {
    pub method: Method,
    pub url: String,
    pub headers: Vec<(String, String)>,
    pub body: Body,
    /// Whether an answer with the status of an error counts as a failure. Where it does not, the
    /// answer is read like any other.
    pub fails_on_error_status: bool,
}

pub struct HttpRequestView {
    pub method: Method,
    pub url: Seq<char>,
    pub headers: Seq<(Seq<char>, Seq<char>)>,
    pub body: BodyView,
    pub fails_on_error_status: bool,
}

impl DeepView for HttpRequest {
    type V = HttpRequestView;

    open spec fn deep_view(&self) -> HttpRequestView {
        HttpRequestView {
            method: self.method,
            url: self.url@,
            headers: self.headers.deep_view(),
            body: self.body.deep_view(),
            fails_on_error_status: self.fails_on_error_status,
        }
    }
}

/// The mathematical value of what became of a request: the answer, or what the client says of its
/// failure.
pub open spec fn reply_view<T: DeepView>(reply: Result<T, String>) -> Result<T::V, Seq<char>> {
    match reply {
        Ok(answer) => Ok(answer.deep_view()),
        Err(cause) => Err(cause@),
    }
}

/// What a reply is to the request that waits for it: a failure to reach another service, or to
/// understand its answer, is a failure of this server.
pub open spec fn received_view<A>(reply: Result<A, Seq<char>>) -> Result<A, ErrorView> {
    match reply {
        Ok(answer) => Ok(answer),
        Err(cause) => Err(ErrorView::Internal(cause)),
    }
}

/// Takes the answer out of a reply, or the error with which the waiting request ends.
pub fn received<T: DeepView>(reply: Result<T, String>) -> (answer: Result<T, Error>)
    ensures
        outcome(answer) == received_view(reply_view(reply)),
        reply matches Ok(a) ==> answer == Ok::<T, Error>(a),
        reply matches Err(cause) ==> answer == Err::<T, Error>(Error::Internal(cause)),
{
    match reply {
        Ok(answer) => Ok(answer),
        Err(cause) => Err(Error::Internal(cause)),
    }
}

} // verus!
