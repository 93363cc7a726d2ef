//! Stable, machine-readable error codes.
use vstd::prelude::*;

use crate::text::{is_blank, text_is_blank, IntoText};

verus! {

/// A stable, machine-readable error code such as `USER_NOT_FOUND`.
///
/// [`ErrorCode::new`] keeps any text as it is; [`ErrorCode::try_new`]
/// rejects empty and white-space-only text.
#[derive(Debug, Clone, PartialEq, Eq, Hash, PartialOrd, Ord)]
pub struct ErrorCode(String);

impl View for ErrorCode {
    type V = Seq<char>;

    closed spec fn view(&self) -> Seq<char> {
        self.0@
    }
}

impl ErrorCode {
    /// Creates an error code holding exactly the given text.
    pub fn new(code: impl IntoText) -> (result: Self)
        ensures
            result@ == code.text_view(),
    {
        ErrorCode(code.into_text())
    }

    /// Creates an error code, rejecting empty and white-space-only text.
    ///
    /// Succeeds exactly when the text holds a character that is not white
    /// space, and the code then holds the text unchanged.
    pub fn try_new(code: impl IntoText) -> (result: Result<Self, InvalidErrorCode>)
        ensures
            result is Ok <==> !is_blank(code.text_view()),
            result matches Ok(c) ==> c@ == code.text_view(),
    {
        let code = code.into_text();
        if text_is_blank(code.as_str()) {
            return Err(InvalidErrorCode);
        }
        Ok(ErrorCode(code))
    }

    /// Returns the underlying code as a string slice.
    pub fn as_str(&self) -> (s: &str)
        ensures
            s@ == self@,
    {
        self.0.as_str()
    }

    /// Consumes the error code and returns the inner `String`.
    pub fn into_string(self) -> (s: String)
        ensures
            s@ == self@,
    {
        self.0
    }

    /// Returns the raw code text as an owned string.
    pub fn to_string(&self) -> (s: String)
        ensures
            s@ == self@,
    {
        self.0.clone()
    }
}

impl IntoText for ErrorCode {
    open spec fn text_view(&self) -> Seq<char> {
        self@
    }

    fn into_text(self) -> (text: String) {
        self.0
    }
}

/// The error returned by [`ErrorCode::try_new`] for empty or
/// white-space-only text.
#[derive(Debug, Clone, Copy, PartialEq, Eq, Structural)]
pub struct InvalidErrorCode;

/// The readable message of an [`InvalidErrorCode`].
pub open spec fn invalid_error_code_message() -> Seq<char> {
    "error code must not be empty or whitespace only"@
}

impl InvalidErrorCode {
    /// Returns the human-readable description of this error.
    pub fn to_string(&self) -> (s: String)
        ensures
            s@ == invalid_error_code_message(),
    {
        String::from_str("error code must not be empty or whitespace only")
    }
}

impl<'a> From<&'a str> for ErrorCode {
    fn from(value: &'a str) -> (result: Self)
        ensures
            result@ == value@,
    {
        Self::new(value)
    }
}

impl<'a> vstd::std_specs::convert::FromSpecImpl<&'a str> for ErrorCode {
    open spec fn obeys_from_spec() -> bool {
        false
    }

    open spec fn from_spec(value: &'a str) -> ErrorCode {
        vstd::pervasive::arbitrary()
    }
}

impl From<String> for ErrorCode {
    fn from(value: String) -> (result: Self)
        ensures
            result@ == value@,
    {
        ErrorCode(value)
    }
}

impl vstd::std_specs::convert::FromSpecImpl<String> for ErrorCode {
    open spec fn obeys_from_spec() -> bool {
        true
    }

    closed spec fn from_spec(value: String) -> ErrorCode {
        ErrorCode(value)
    }
}

impl AsRef<str> for ErrorCode {
    fn as_ref(&self) -> (s: &str)
        ensures
            s@ == self@,
    {
        self.0.as_str()
    }
}

/// The characters of a string slice.
pub open spec fn str_text(s: &str) -> Seq<char> {
    s@
}

impl std::borrow::Borrow<str> for ErrorCode {
    fn borrow(&self) -> (s: &str)
        ensures
            str_text(s) == self@,
    {
        self.0.as_str()
    }
}

} // verus!
