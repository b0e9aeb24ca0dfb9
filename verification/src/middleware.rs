//! The errors of a middleware chain.

use crate::error::HttpError;
use crate::error::StatusCode;
use vstd::prelude::*;
use vstd::string::StringExecFns;

verus! {

/// What went wrong when a middleware ran around an endpoint.
#[derive(Debug)]
pub enum MiddlewareError<N, E> {
    /// The endpoint failed.
    Endpoint(N),
    /// The middleware itself failed.
    Middleware(E),
}

impl<N: HttpError, E: HttpError> HttpError for MiddlewareError<N, E> {
    /// The status of whichever part failed.
    fn status(&self) -> (status: StatusCode)
        ensures
            match self {
                MiddlewareError::Endpoint(error) => call_ensures(N::status, (error,), status),
                MiddlewareError::Middleware(error) => call_ensures(E::status, (error,), status),
            },
    {
        match self {
            MiddlewareError::Endpoint(error) => error.status(),
            MiddlewareError::Middleware(error) => error.status(),
        }
    }

    /// The report of whichever part failed, after a word on which it was.
    fn to_string(&self) -> (text: String)
        ensures
            match self {
                MiddlewareError::Endpoint(error) => exists|report: String|
                    call_ensures(N::to_string, (error,), report) && text@ == "Endpoint error: "@
                        + report@,
                MiddlewareError::Middleware(error) => exists|report: String|
                    call_ensures(E::to_string, (error,), report) && text@
                        == "Middleware error: "@ + report@,
            },
    {
        match self {
            MiddlewareError::Endpoint(error) => {
                let report = error.to_string();
                let mut text = "Endpoint error: ".to_owned();
                text.append(report.as_str());
                text
            },
            MiddlewareError::Middleware(error) => {
                let report = error.to_string();
                let mut text = "Middleware error: ".to_owned();
                text.append(report.as_str());
                text
            },
        }
    }
}

/// What went wrong in a pair of middlewares.
#[derive(Debug)]
pub enum MiddlewareTupleError<E1: HttpError, E2: HttpError> {
    /// The first middleware failed.
    First(E1),
    /// The second middleware failed.
    Second(E2),
}

impl<A: HttpError, B: HttpError> HttpError for MiddlewareTupleError<A, B> {
    /// The status of whichever middleware failed.
    fn status(&self) -> (status: StatusCode)
        ensures
            match self {
                MiddlewareTupleError::First(error) => call_ensures(A::status, (error,), status),
                MiddlewareTupleError::Second(error) => call_ensures(B::status, (error,), status),
            },
    {
        match self {
            MiddlewareTupleError::First(error) => error.status(),
            MiddlewareTupleError::Second(error) => error.status(),
        }
    }

    /// The report of whichever middleware failed, after a word on which it
    /// was.
    fn to_string(&self) -> (text: String)
        ensures
            match self {
                MiddlewareTupleError::First(error) => exists|report: String|
                    call_ensures(A::to_string, (error,), report) && text@
                        == "First middleware error: "@ + report@,
                MiddlewareTupleError::Second(error) => exists|report: String|
                    call_ensures(B::to_string, (error,), report) && text@
                        == "Second middleware error: "@ + report@,
            },
    {
        match self {
            MiddlewareTupleError::First(error) => {
                let report = error.to_string();
                let mut text = "First middleware error: ".to_owned();
                text.append(report.as_str());
                text
            },
            MiddlewareTupleError::Second(error) => {
                let report = error.to_string();
                let mut text = "Second middleware error: ".to_owned();
                text.append(report.as_str());
                text
            },
        }
    }
}

} // verus!
