//! The ways a call to the control plane can fail.

use vstd::prelude::*;
use crate::protocol::{AgentApiResponse, ResponseView};

verus! {

/// The error that reqwest reports for a failed HTTP exchange.
#[verifier::external_type_specification]
#[verifier::external_body]
pub struct ExRequestError(reqwest::Error);

/// Why a reply could not be read.
#[derive(Debug)]
pub enum ParseFailure {
    /// The bytes are not JSON text.
    InvalidJson(serde_json::Error),
    /// The bytes are JSON, but neither the error object nor any known reply.
    UnknownShape,
}

/// A failed call.
#[derive(Debug)]
pub enum ApiError {
    /// The server answered with its error object: a code and a message.
    HttpError(u16, String),
    /// The reply could not be read.
    ParseError(ParseFailure),
    /// The HTTP exchange itself failed.
    RequestError(reqwest::Error),
    /// The reply is valid, but not the variant that answers the operation.
    UnexpectedResponse(AgentApiResponse),
}

/// The mathematical value of an `ApiError`; outside errors are kept by kind.
pub ghost enum ApiErrorView {
    HttpError(u16, Seq<char>),
    InvalidJson,
    UnknownShape,
    RequestError,
    UnexpectedResponse(ResponseView),
}

impl View for ApiError {
    type V = ApiErrorView;

    open spec fn view(&self) -> ApiErrorView {
        match self {
            ApiError::HttpError(c, m) => ApiErrorView::HttpError(*c, m@),
            ApiError::ParseError(ParseFailure::InvalidJson(_)) => ApiErrorView::InvalidJson,
            ApiError::ParseError(ParseFailure::UnknownShape) => ApiErrorView::UnknownShape,
            ApiError::RequestError(_) => ApiErrorView::RequestError,
            ApiError::UnexpectedResponse(r) => ApiErrorView::UnexpectedResponse(r@),
        }
    }
}

/// The error is a parse failure.
pub open spec fn is_parse_failure(e: ApiErrorView) -> bool {
    e is InvalidJson || e is UnknownShape
}

/// The view of a call's outcome.
pub open spec fn outcome_view<T: View>(r: Result<T, ApiError>) -> Result<T::V, ApiErrorView> {
    match r {
        Ok(v) => Ok(v@),
        Err(e) => Err(e@),
    }
}

impl From<reqwest::Error> for ApiError {
    fn from(error: reqwest::Error) -> (r: ApiError)
        ensures
            r == ApiError::RequestError(error),
    {
        ApiError::RequestError(error)
    }
}

impl vstd::std_specs::convert::FromSpecImpl<reqwest::Error> for ApiError {
    open spec fn obeys_from_spec() -> bool {
        true
    }

    open spec fn from_spec(v: reqwest::Error) -> ApiError {
        ApiError::RequestError(v)
    }
}

} // verus!
