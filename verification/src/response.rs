//! A transport-friendly representation of an application error.
use vstd::prelude::*;

use crate::detail::DetailValueView;
use crate::details::ErrorDetails;
use crate::error::{AppError, AppErrorView};
use crate::kind::ErrorKind;
use crate::retry::{duration_millis, RetryHint};
use crate::text::IntoText;

verus! {

/// An owned, transport-safe view of an [`AppError`] without its source:
/// kind, code, message, details, whether a retry is allowed and the
/// suggested retry delay in milliseconds.
#[derive(Debug, PartialEq, Eq)]
pub struct ErrorResponse {
    /// The high-level classification of the error.
    pub kind: ErrorKind,
    /// A stable machine-readable error code.
    pub code: String,
    /// A human-readable message.
    pub message: String,
    /// Structured error metadata.
    pub details: ErrorDetails,
    /// Whether the error is retryable.
    pub retryable: bool,
    /// Suggested retry delay in milliseconds, if any.
    pub retry_after_ms: Option<u64>,
}

/// The mathematical value of an [`ErrorResponse`].
pub struct ErrorResponseView {
    pub kind: ErrorKind,
    pub code: Seq<char>,
    pub message: Seq<char>,
    pub details: Map<Seq<char>, DetailValueView>,
    pub retryable: bool,
    pub retry_after_ms: Option<u64>,
}

impl View for ErrorResponse {
    type V = ErrorResponseView;

    open spec fn view(&self) -> ErrorResponseView {
        ErrorResponseView {
            kind: self.kind,
            code: self.code@,
            message: self.message@,
            details: self.details@,
            retryable: self.retryable,
            retry_after_ms: self.retry_after_ms,
        }
    }
}

/// The response that describes an error: its kind, code, message and
/// details, whether its retry hint allows a retry, and the hint's delay in
/// milliseconds.
pub open spec fn response_of(error: AppErrorView) -> ErrorResponseView {
    ErrorResponseView {
        kind: error.kind,
        code: error.code,
        message: error.message,
        details: error.details,
        retryable: error.retry_hint.spec_is_retryable(),
        retry_after_ms: error.retry_hint.spec_retry_after_ms(),
    }
}

impl ErrorResponse {
    /// Creates a response from explicit fields.
    pub fn new(
        kind: ErrorKind,
        code: impl IntoText,
        message: impl IntoText,
        details: ErrorDetails,
        retryable: bool,
        retry_after_ms: Option<u64>,
    ) -> (response: Self)
        ensures
            response@ == (ErrorResponseView {
                kind,
                code: code.text_view(),
                message: message.text_view(),
                details: details@,
                retryable,
                retry_after_ms,
            }),
    {
        ErrorResponse {
            kind,
            code: code.into_text(),
            message: message.into_text(),
            details,
            retryable,
            retry_after_ms,
        }
    }
}

impl Clone for ErrorResponse {
    fn clone(&self) -> (copy: Self)
        ensures
            copy@ == self@,
    {
        ErrorResponse {
            kind: self.kind,
            code: self.code.clone(),
            message: self.message.clone(),
            details: self.details.clone(),
            retryable: self.retryable,
            retry_after_ms: self.retry_after_ms,
        }
    }
}

impl<'a> From<&'a AppError> for ErrorResponse {
    /// Describes a borrowed error; its details are copied.
    fn from(error: &'a AppError) -> (response: Self)
        ensures
            response@ == response_of(error@),
    {
        ErrorResponse {
            kind: error.kind(),
            code: String::from_str(error.code().as_str()),
            message: String::from_str(error.message_str()),
            details: error.details_map().clone(),
            retryable: error.is_retryable(),
            retry_after_ms: error.retry_hint_ref().retry_after_ms(),
        }
    }
}

impl<'a> vstd::std_specs::convert::FromSpecImpl<&'a AppError> for ErrorResponse {
    open spec fn obeys_from_spec() -> bool {
        false
    }

    open spec fn from_spec(error: &'a AppError) -> ErrorResponse {
        vstd::pervasive::arbitrary()
    }
}

impl From<AppError> for ErrorResponse {
    /// Describes an owned error, moving its parts; the source is dropped.
    fn from(error: AppError) -> (response: Self)
        ensures
            response@ == response_of(error@),
    {
        let parts = error.into_parts();
        let retryable = parts.retry_hint.is_retryable();
        let retry_after_ms = parts.retry_hint.retry_after_ms();
        ErrorResponse {
            kind: parts.kind,
            code: parts.code.into_string(),
            message: parts.message,
            details: parts.details,
            retryable,
            retry_after_ms,
        }
    }
}

impl vstd::std_specs::convert::FromSpecImpl<AppError> for ErrorResponse {
    open spec fn obeys_from_spec() -> bool {
        false
    }

    open spec fn from_spec(error: AppError) -> ErrorResponse {
        vstd::pervasive::arbitrary()
    }
}

/// A response allows a retry exactly when the error's hint is not `Never`
/// (so for `Safe` as well as `After`), and carries a delay exactly for an
/// `After` hint: that delay's whole milliseconds, modulo 2^64. Kind, code,
/// message and details are carried over unchanged.
pub proof fn lemma_response_describes_error(error: AppErrorView)
    ensures
        response_of(error).retryable <==> error.retry_hint != RetryHint::Never,
        error.retry_hint == RetryHint::Safe ==> response_of(error).retryable,
        response_of(error).retry_after_ms is Some <==> error.retry_hint is After,
        error.retry_hint matches RetryHint::After(d) ==> response_of(error).retry_after_ms->0 as int
            == duration_millis(d) as int % 0x1_0000_0000_0000_0000,
        response_of(error).kind == error.kind,
        response_of(error).code == error.code,
        response_of(error).message == error.message,
        response_of(error).details == error.details,
{
    if let RetryHint::After(d) = error.retry_hint {
        let m = duration_millis(d);
        assert((m as u64) as int == m as int % 0x1_0000_0000_0000_0000) by (bit_vector);
    }
}

} // verus!
