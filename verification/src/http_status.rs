//! Mapping of errors to HTTP status codes.
use http::status::InvalidStatusCode;
use http::StatusCode;

use vstd::prelude::*;

use crate::error::AppError;
use crate::kind::{kind_is_client_fault, ErrorKind};

verus! {

#[verifier::external_type_specification]
#[verifier::external_body]
pub struct ExStatusCode(http::StatusCode);

#[verifier::external_type_specification]
#[verifier::external_body]
pub struct ExInvalidStatusCode(http::status::InvalidStatusCode);

/// The status code that [`StatusCode::from_u16`] builds from a number.
pub uninterp spec fn status_code_of(code: u16) -> StatusCode;

/// Calls [`StatusCode::from_u16`], which accepts exactly the numbers from
/// 100 to 999; the code it builds is named by [`status_code_of`].
#[verifier::external_body]
fn status_code_from_u16(code: u16) -> (status: Result<StatusCode, InvalidStatusCode>)
    ensures
        status is Ok <==> 100 <= code <= 999,
        status matches Ok(s) ==> s == status_code_of(code),
{
    StatusCode::from_u16(code)
}

/// The HTTP status number of each kind.
pub open spec fn http_status_number(kind: ErrorKind) -> u16 {
    match kind {
        ErrorKind::Validation => 400,
        ErrorKind::Unauthorized => 401,
        ErrorKind::Forbidden => 403,
        ErrorKind::NotFound => 404,
        ErrorKind::Conflict => 409,
        ErrorKind::RateLimited => 429,
        ErrorKind::Timeout => 408,
        ErrorKind::Cancelled => 400,
        ErrorKind::Unavailable => 503,
        ErrorKind::External => 502,
        ErrorKind::Internal => 500,
    }
}

fn status_number(kind: ErrorKind) -> (number: u16)
    ensures
        number == http_status_number(kind),
{
    match kind {
        ErrorKind::Validation => 400,
        ErrorKind::Unauthorized => 401,
        ErrorKind::Forbidden => 403,
        ErrorKind::NotFound => 404,
        ErrorKind::Conflict => 409,
        ErrorKind::RateLimited => 429,
        ErrorKind::Timeout => 408,
        ErrorKind::Cancelled => 400,
        ErrorKind::Unavailable => 503,
        ErrorKind::External => 502,
        ErrorKind::Internal => 500,
    }
}

fn status_for(kind: ErrorKind) -> (status: StatusCode)
    ensures
        status == status_code_of(http_status_number(kind)),
{
    match status_code_from_u16(status_number(kind)) {
        Ok(status) => status,
        Err(_) => vstd::pervasive::unreached(),
    }
}

/// Mapping of error values to HTTP status codes.
pub trait HttpErrorExt {
    /// Returns the HTTP status code corresponding to this error value.
    fn http_status(&self) -> StatusCode;
}

impl HttpErrorExt for ErrorKind {
    /// Validation and Cancelled map to 400, Unauthorized to 401, Forbidden
    /// to 403, NotFound to 404, Conflict to 409, RateLimited to 429, Timeout
    /// to 408, Unavailable to 503, External to 502 and Internal to 500.
    fn http_status(&self) -> (status: StatusCode)
        ensures
            status == status_code_of(http_status_number(*self)),
    {
        status_for(*self)
    }
}

impl HttpErrorExt for AppError {
    /// Maps an error to the status code of its kind.
    fn http_status(&self) -> (status: StatusCode)
        ensures
            status == status_code_of(http_status_number(self@.kind)),
    {
        status_for(self.kind())
    }
}

/// Client-fault kinds map to 4xx status codes; Unavailable, External and
/// Internal map to 5xx status codes.
pub proof fn lemma_status_classes(kind: ErrorKind)
    ensures
        kind_is_client_fault(kind) ==> 400 <= http_status_number(kind) < 500,
        (kind == ErrorKind::Unavailable || kind == ErrorKind::External || kind
            == ErrorKind::Internal) ==> 500 <= http_status_number(kind) < 600,
{
}

} // verus!
