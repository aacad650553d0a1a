//! The closed set of errors that every operation of the library reports.

use vstd::prelude::*;

verus! {

/// What went wrong with a request.
#[derive(Debug, Clone, Copy, PartialEq, Eq, Structural)]
pub enum CryptoMktErrorType {
    /// HTTP 401: the API key is wrong.
    RequestUnauthorized,
    /// HTTP 403: the resource is for administrators only.
    RequestForbidden,
    /// HTTP 404: the resource could not be found.
    RequestNotFound,
    /// HTTP 405: the method is not allowed on the resource.
    RequestMethodNotAllowed,
    /// HTTP 406: a format other than JSON was asked for.
    RequestNotAcceptable,
    /// HTTP 410: the resource has been removed.
    RequestGone,
    /// HTTP 418: I'm a teapot.
    RequestTeapot,
    /// HTTP 429: too many requests.
    RequestTooManyRequests,
    /// HTTP 500: the server has problems.
    RequestInternalServerError,
    /// HTTP 503: the service is down for maintenance.
    RequestServiceUnavailable,
    /// Any other status but 200, or a failure of the network itself.
    BadRequest,
    /// A reply with status 200 whose body does not have the expected shape.
    MalformedResource,
}

/// Result of an operation of this library.
pub type CryptoMktResult<T> = Result<T, CryptoMktErrorType>;

/// Whether an HTTP status code reports success: only 200 (OK) does.
pub open spec fn is_success_status(status: u16) -> bool {
    status == 200
}

/// The error that an unsuccessful HTTP status code stands for.
pub open spec fn error_for_status(status: u16) -> CryptoMktErrorType {
    if status == 401 {
        CryptoMktErrorType::RequestUnauthorized
    } else if status == 403 {
        CryptoMktErrorType::RequestForbidden
    } else if status == 404 {
        CryptoMktErrorType::RequestNotFound
    } else if status == 405 {
        CryptoMktErrorType::RequestMethodNotAllowed
    } else if status == 406 {
        CryptoMktErrorType::RequestNotAcceptable
    } else if status == 410 {
        CryptoMktErrorType::RequestGone
    } else if status == 418 {
        CryptoMktErrorType::RequestTeapot
    } else if status == 429 {
        CryptoMktErrorType::RequestTooManyRequests
    } else if status == 500 {
        CryptoMktErrorType::RequestInternalServerError
    } else if status == 503 {
        CryptoMktErrorType::RequestServiceUnavailable
    } else {
        CryptoMktErrorType::BadRequest
    }
}

} // verus!
