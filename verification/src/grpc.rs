//! Mapping of errors to gRPC statuses.
use tonic::{Code, Status};

use vstd::prelude::*;

use crate::error::AppError;
use crate::kind::ErrorKind;

verus! {

#[verifier::external_type_specification]
#[verifier::external_body]
pub struct ExCode(tonic::Code);

#[verifier::external_type_specification]
#[verifier::external_body]
pub struct ExStatus(tonic::Status);

/// The code that [`Code::from_i32`] gives for a number.
pub uninterp spec fn grpc_code_of(value: i32) -> Code;

/// The status that [`Status::new`] builds from a code and a message.
pub uninterp spec fn grpc_status_of(code: Code, message: Seq<char>) -> Status;

/// Calls [`Code::from_i32`]; its result is named by [`grpc_code_of`].
#[verifier::external_body]
fn code_from_i32(value: i32) -> (code: Code)
    ensures
        code == grpc_code_of(value),
{
    Code::from_i32(value)
}

/// Calls [`Status::new`]; its result is named by [`grpc_status_of`].
#[verifier::external_body]
fn status_new(code: Code, message: String) -> (status: Status)
    ensures
        status == grpc_status_of(code, message@),
{
    Status::new(code, message)
}

/// The gRPC code number of each kind: InvalidArgument (3) for Validation,
/// Unauthenticated (16) for Unauthorized, PermissionDenied (7) for
/// Forbidden, NotFound (5), AlreadyExists (6) for Conflict,
/// ResourceExhausted (8) for RateLimited, DeadlineExceeded (4) for Timeout,
/// Cancelled (1), Unavailable (14) for Unavailable and External, and
/// Internal (13).
pub open spec fn grpc_code_number(kind: ErrorKind) -> i32 {
    match kind {
        ErrorKind::Validation => 3,
        ErrorKind::Unauthorized => 16,
        ErrorKind::Forbidden => 7,
        ErrorKind::NotFound => 5,
        ErrorKind::Conflict => 6,
        ErrorKind::RateLimited => 8,
        ErrorKind::Timeout => 4,
        ErrorKind::Cancelled => 1,
        ErrorKind::Unavailable => 14,
        ErrorKind::External => 14,
        ErrorKind::Internal => 13,
    }
}

/// Maps an error kind to its gRPC code.
fn grpc_code(kind: ErrorKind) -> (code: Code)
    ensures
        code == grpc_code_of(grpc_code_number(kind)),
{
    let number: i32 = match kind {
        ErrorKind::Validation => 3,
        ErrorKind::Unauthorized => 16,
        ErrorKind::Forbidden => 7,
        ErrorKind::NotFound => 5,
        ErrorKind::Conflict => 6,
        ErrorKind::RateLimited => 8,
        ErrorKind::Timeout => 4,
        ErrorKind::Cancelled => 1,
        ErrorKind::Unavailable => 14,
        ErrorKind::External => 14,
        ErrorKind::Internal => 13,
    };
    code_from_i32(number)
}

/// The status that describes an error: the gRPC code of its kind and its
/// readable text as the message.
pub open spec fn status_for_error(error: &AppError) -> Status {
    grpc_status_of(grpc_code_of(grpc_code_number(error@.kind)), error@.text())
}

impl From<AppError> for Status {
    /// Converts an owned error into a gRPC status.
    fn from(error: AppError) -> (status: Status)
        ensures
            status == status_for_error(&error),
    {
        status_new(grpc_code(error.kind()), error.to_string())
    }
}

impl vstd::std_specs::convert::FromSpecImpl<AppError> for Status {
    open spec fn obeys_from_spec() -> bool {
        true
    }

    open spec fn from_spec(error: AppError) -> Status {
        status_for_error(&error)
    }
}

impl<'a> From<&'a AppError> for Status {
    /// Converts a borrowed error into a gRPC status.
    fn from(error: &'a AppError) -> (status: Status)
        ensures
            status == status_for_error(error),
    {
        status_new(grpc_code(error.kind()), error.to_string())
    }
}

impl<'a> vstd::std_specs::convert::FromSpecImpl<&'a AppError> for Status {
    open spec fn obeys_from_spec() -> bool {
        true
    }

    open spec fn from_spec(error: &'a AppError) -> Status {
        status_for_error(error)
    }
}

} // verus!
