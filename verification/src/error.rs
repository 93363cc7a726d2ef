//! The structured application error.
use vstd::prelude::*;

use crate::code::ErrorCode;
use crate::detail::{DetailValue, DetailValueView, IntoDetailValue};
use crate::details::{entry_views, insert_all, ErrorDetails};
use crate::kind::{kind_name, ErrorKind};
use crate::retry::RetryHint;
use crate::text::IntoText;

verus! {

/// The underlying failure recorded as the source of an [`AppError`].
///
/// It holds a boxed `std::error::Error + Send + Sync`. Verus cannot hold a
/// trait object of several traits, so the box is kept behind this opaque
/// type: nothing is stated of what it holds, beyond its presence.
#[verifier::external_body]
pub struct ErrorSource {
    inner: Box<dyn std::error::Error + Send + Sync + 'static>,
}

impl ErrorSource {
    /// Boxes an error as a source. Nothing is stated of the result: it is
    /// opaque.
    #[verifier::external_body]
    pub(crate) fn new<E: std::error::Error + Send + Sync + 'static>(error: E) -> ErrorSource {
        ErrorSource { inner: Box::new(error) }
    }

    /// Renders the source error with its `Display` implementation, which
    /// belongs to the source's own type; nothing is stated of the text.
    #[verifier::external_body]
    pub fn to_string(&self) -> String {
        self.inner.to_string()
    }
}

#[verifier::external_type_specification]
#[verifier::external_body]
pub struct ExFormatter<'a>(std::fmt::Formatter<'a>);

#[verifier::external_type_specification]
#[verifier::external_body]
pub struct ExFmtError(std::fmt::Error);

impl std::fmt::Debug for ErrorSource {
    /// Formats the source as the source error itself formats.
    #[verifier::external_body]
    fn fmt(&self, f: &mut std::fmt::Formatter<'_>) -> std::fmt::Result {
        std::fmt::Debug::fmt(&self.inner, f)
    }
}

/// The mathematical value of an [`AppError`].
pub struct AppErrorView {
    pub kind: ErrorKind,
    pub code: Seq<char>,
    pub message: Seq<char>,
    pub details: Map<Seq<char>, DetailValueView>,
    pub retry_hint: RetryHint,
    pub has_source: bool,
}

impl AppErrorView {
    /// A fresh error: empty message, no details, never retryable, no source.
    pub open spec fn fresh(kind: ErrorKind, code: Seq<char>) -> AppErrorView {
        AppErrorView {
            kind,
            code,
            message: Seq::empty(),
            details: Map::empty(),
            retry_hint: RetryHint::Never,
            has_source: false,
        }
    }

    /// The same error with another message.
    pub open spec fn with_message(self, message: Seq<char>) -> AppErrorView {
        AppErrorView { message, ..self }
    }

    /// The same error with other details.
    pub open spec fn with_details(self, details: Map<Seq<char>, DetailValueView>) -> AppErrorView {
        AppErrorView { details, ..self }
    }

    /// The same error with another retry hint.
    pub open spec fn with_retry_hint(self, retry_hint: RetryHint) -> AppErrorView {
        AppErrorView { retry_hint, ..self }
    }

    /// The same error with a source recorded.
    pub open spec fn with_source(self) -> AppErrorView {
        AppErrorView { has_source: true, ..self }
    }

    /// The readable text of an error: `CODE: message` when a message is
    /// present, otherwise `CODE (kind)`.
    pub open spec fn text(self) -> Seq<char> {
        if self.message.len() == 0 {
            self.code + " ("@ + kind_name(self.kind) + ")"@
        } else {
            self.code + ": "@ + self.message
        }
    }
}

/// A structured application error: a kind, a stable code, a human-readable
/// message, structured details, retry guidance and an optional source.
#[derive(Debug)]
pub struct AppError {
    kind: ErrorKind,
    code: ErrorCode,
    message: String,
    details: ErrorDetails,
    retry_hint: RetryHint,
    source: Option<ErrorSource>,
}

impl View for AppError {
    type V = AppErrorView;

    closed spec fn view(&self) -> AppErrorView {
        AppErrorView {
            kind: self.kind,
            code: self.code@,
            message: self.message@,
            details: self.details@,
            retry_hint: self.retry_hint,
            has_source: self.source is Some,
        }
    }
}

/// Owned components of an [`AppError`].
pub struct AppErrorParts {
    pub kind: ErrorKind,
    pub code: ErrorCode,
    pub message: String,
    pub details: ErrorDetails,
    pub retry_hint: RetryHint,
    pub source: Option<ErrorSource>,
}

impl AppError {
    /// Creates an error with an empty message, empty details,
    /// [`RetryHint::Never`] and no source.
    pub fn new(kind: ErrorKind, code: impl IntoText) -> (error: Self)
        ensures
            error@ == AppErrorView::fresh(kind, code.text_view()),
    {
        AppError {
            kind,
            code: ErrorCode::new(code),
            message: String::new(),
            details: ErrorDetails::new(),
            retry_hint: RetryHint::Never,
            source: None,
        }
    }

    /// Creates a validation error.
    pub fn validation(code: impl IntoText) -> (error: Self)
        ensures
            error@ == AppErrorView::fresh(ErrorKind::Validation, code.text_view()),
    {
        Self::new(ErrorKind::Validation, code)
    }

    /// Creates an unauthorized error.
    pub fn unauthorized(code: impl IntoText) -> (error: Self)
        ensures
            error@ == AppErrorView::fresh(ErrorKind::Unauthorized, code.text_view()),
    {
        Self::new(ErrorKind::Unauthorized, code)
    }

    /// Creates a forbidden error.
    pub fn forbidden(code: impl IntoText) -> (error: Self)
        ensures
            error@ == AppErrorView::fresh(ErrorKind::Forbidden, code.text_view()),
    {
        Self::new(ErrorKind::Forbidden, code)
    }

    /// Creates a not-found error.
    pub fn not_found(code: impl IntoText) -> (error: Self)
        ensures
            error@ == AppErrorView::fresh(ErrorKind::NotFound, code.text_view()),
    {
        Self::new(ErrorKind::NotFound, code)
    }

    /// Creates a conflict error.
    pub fn conflict(code: impl IntoText) -> (error: Self)
        ensures
            error@ == AppErrorView::fresh(ErrorKind::Conflict, code.text_view()),
    {
        Self::new(ErrorKind::Conflict, code)
    }

    /// Creates a rate-limited error.
    pub fn rate_limited(code: impl IntoText) -> (error: Self)
        ensures
            error@ == AppErrorView::fresh(ErrorKind::RateLimited, code.text_view()),
    {
        Self::new(ErrorKind::RateLimited, code)
    }

    /// Creates a timeout error.
    pub fn timeout(code: impl IntoText) -> (error: Self)
        ensures
            error@ == AppErrorView::fresh(ErrorKind::Timeout, code.text_view()),
    {
        Self::new(ErrorKind::Timeout, code)
    }

    /// Creates a cancelled error.
    pub fn cancelled(code: impl IntoText) -> (error: Self)
        ensures
            error@ == AppErrorView::fresh(ErrorKind::Cancelled, code.text_view()),
    {
        Self::new(ErrorKind::Cancelled, code)
    }

    /// Creates an unavailable error.
    pub fn unavailable(code: impl IntoText) -> (error: Self)
        ensures
            error@ == AppErrorView::fresh(ErrorKind::Unavailable, code.text_view()),
    {
        Self::new(ErrorKind::Unavailable, code)
    }

    /// Creates an external error.
    pub fn external(code: impl IntoText) -> (error: Self)
        ensures
            error@ == AppErrorView::fresh(ErrorKind::External, code.text_view()),
    {
        Self::new(ErrorKind::External, code)
    }

    /// Creates an internal error.
    pub fn internal(code: impl IntoText) -> (error: Self)
        ensures
            error@ == AppErrorView::fresh(ErrorKind::Internal, code.text_view()),
    {
        Self::new(ErrorKind::Internal, code)
    }

    /// Sets the human-readable message, leaving everything else unchanged.
    pub fn message(self, message: impl IntoText) -> (error: Self)
        ensures
            error@ == self@.with_message(message.text_view()),
    {
        let mut error = self;
        error.message = message.into_text();
        error
    }

    /// Adds one structured metadata entry, replacing any value stored under
    /// the same key, and leaves everything else unchanged.
    pub fn detail(self, key: impl IntoText, value: impl IntoDetailValue) -> (error: Self)
        ensures
            error@ == self@.with_details(self@.details.insert(key.text_view(), value.detail_view())),
    {
        let mut error = self;
        error.details.insert(key.into_text(), value.into_detail_value());
        error
    }

    /// Adds several structured metadata entries in order; a later entry
    /// replaces an earlier one with the same key.
    pub fn details(self, entries: Vec<(String, DetailValue)>) -> (error: Self)
        ensures
            error@ == self@.with_details(insert_all(self@.details, entry_views(entries@))),
    {
        let mut error = self;
        error.details.extend(entries);
        error
    }

    /// Sets the retry guidance, leaving everything else unchanged.
    pub fn retry_hint(self, retry_hint: RetryHint) -> (error: Self)
        ensures
            error@ == self@.with_retry_hint(retry_hint),
    {
        let mut error = self;
        error.retry_hint = retry_hint;
        error
    }

    /// Records the underlying error as the source, leaving everything else
    /// unchanged.
    pub fn source_error<E: std::error::Error + Send + Sync + 'static>(self, error: E) -> (result:
        Self)
        ensures
            result@ == self@.with_source(),
    {
        let mut result = self;
        result.source = Some(ErrorSource::new(error));
        result
    }

    /// Returns the high-level error classification.
    pub fn kind(&self) -> (kind: ErrorKind)
        ensures
            kind == self@.kind,
    {
        self.kind
    }

    /// Returns the stable machine-readable error code.
    pub fn code(&self) -> (code: &ErrorCode)
        ensures
            code@ == self@.code,
    {
        &self.code
    }

    /// Returns the human-readable error message.
    pub fn message_str(&self) -> (message: &str)
        ensures
            message@ == self@.message,
    {
        self.message.as_str()
    }

    /// Returns the structured error metadata.
    pub fn details_map(&self) -> (details: &ErrorDetails)
        ensures
            details@ == self@.details,
    {
        &self.details
    }

    /// Returns the retry hint.
    pub fn retry_hint_ref(&self) -> (hint: &RetryHint)
        ensures
            *hint == self@.retry_hint,
    {
        &self.retry_hint
    }

    /// Returns `true` if the error is retryable, as its retry hint says.
    pub fn is_retryable(&self) -> (retryable: bool)
        ensures
            retryable == self@.retry_hint.spec_is_retryable(),
    {
        self.retry_hint.is_retryable()
    }

    /// Returns the source error, if one was recorded.
    pub fn source(&self) -> (source: Option<&ErrorSource>)
        ensures
            source is Some <==> self@.has_source,
    {
        match &self.source {
            Some(source) => Some(source),
            None => None,
        }
    }

    /// Decomposes the error into owned parts.
    pub fn into_parts(self) -> (parts: AppErrorParts)
        ensures
            parts.kind == self@.kind,
            parts.code@ == self@.code,
            parts.message@ == self@.message,
            parts.details@ == self@.details,
            parts.retry_hint == self@.retry_hint,
            parts.source is Some <==> self@.has_source,
    {
        AppErrorParts {
            kind: self.kind,
            code: self.code,
            message: self.message,
            details: self.details,
            retry_hint: self.retry_hint,
            source: self.source,
        }
    }

    /// Renders the error as `CODE: message` when a message is present,
    /// otherwise as `CODE (kind)`.
    pub fn to_string(&self) -> (text: String)
        ensures
            text@ == self@.text(),
    {
        let mut text = self.code.to_string();
        if self.message.as_str().is_empty() {
            text.append(" (");
            text.append(self.kind.as_str());
            text.append(")");
        } else {
            text.append(": ");
            text.append(self.message.as_str());
        }
        text
    }
}

/// A fresh error has the given kind and code, an empty message, no
/// details, `RetryHint::Never` and no source; each builder changes its own
/// field and leaves every other field as it was.
pub proof fn lemma_builders_change_only_their_field(
    error: AppErrorView,
    kind: ErrorKind,
    code: Seq<char>,
    message: Seq<char>,
    details: Map<Seq<char>, DetailValueView>,
    hint: RetryHint,
)
    ensures
        AppErrorView::fresh(kind, code).kind == kind,
        AppErrorView::fresh(kind, code).code == code,
        AppErrorView::fresh(kind, code).message.len() == 0,
        AppErrorView::fresh(kind, code).details.dom().is_empty(),
        AppErrorView::fresh(kind, code).retry_hint == RetryHint::Never,
        !AppErrorView::fresh(kind, code).has_source,
        ({
            let e = error.with_message(message);
            e.message == message && e.kind == error.kind && e.code == error.code && e.details
                == error.details && e.retry_hint == error.retry_hint && e.has_source
                == error.has_source
        }),
        ({
            let e = error.with_details(details);
            e.details == details && e.kind == error.kind && e.code == error.code && e.message
                == error.message && e.retry_hint == error.retry_hint && e.has_source
                == error.has_source
        }),
        ({
            let e = error.with_retry_hint(hint);
            e.retry_hint == hint && e.kind == error.kind && e.code == error.code && e.message
                == error.message && e.details == error.details && e.has_source == error.has_source
        }),
        ({
            let e = error.with_source();
            e.has_source && e.kind == error.kind && e.code == error.code && e.message
                == error.message && e.details == error.details && e.retry_hint == error.retry_hint
        }),
{
}

/// The text of an error with a message is the whole code, a colon and a
/// space, then the whole message, whatever their lengths; without a message
/// it is the code, a space, the kind's name in parentheses.
pub proof fn lemma_error_text_layout(error: AppErrorView)
    ensures
        error.text().take(error.code.len() as int) == error.code,
        error.message.len() > 0 ==> {
            &&& error.text().len() == error.code.len() + 2 + error.message.len()
            &&& error.text()[error.code.len() as int] == ':'
            &&& error.text()[error.code.len() + 1int] == ' '
            &&& error.text().skip(error.code.len() + 2int) == error.message
        },
        error.message.len() == 0 ==> {
            &&& error.text().len() == error.code.len() + 3 + kind_name(error.kind).len()
            &&& error.text()[error.code.len() as int] == ' '
            &&& error.text()[error.code.len() + 1int] == '('
            &&& error.text().subrange(error.code.len() + 2int, error.text().len() - 1) == kind_name(
                error.kind,
            )
            &&& error.text().last() == ')'
        },
{
    reveal_strlit(": ");
    reveal_strlit(" (");
    reveal_strlit(")");
    let t = error.text();
    let c = error.code;
    if error.message.len() > 0 {
        assert(t =~= c + (": "@ + error.message));
        assert(t.take(c.len() as int) =~= c);
        assert(t.skip(c.len() + 2int) =~= error.message);
    } else {
        let k = kind_name(error.kind);
        assert(t =~= c + (" ("@ + k + ")"@));
        assert(t.take(c.len() as int) =~= c);
        assert(t.subrange(c.len() + 2int, t.len() - 1) =~= k);
    }
}

/// The error obtained by adding the entries one by one, in order, with
/// [`AppError::detail`].
pub open spec fn detail_each(
    error: AppErrorView,
    entries: Seq<(Seq<char>, DetailValueView)>,
) -> AppErrorView
    decreases entries.len(),
{
    if entries.len() == 0 {
        error
    } else {
        let before = detail_each(error, entries.drop_last());
        before.with_details(before.details.insert(entries.last().0, entries.last().1))
    }
}

/// Adding entries with [`AppError::details`] gives the same error as adding
/// the same entries one by one, in order, with [`AppError::detail`].
pub proof fn lemma_details_is_successive_detail(
    error: AppErrorView,
    entries: Seq<(Seq<char>, DetailValueView)>,
)
    ensures
        error.with_details(insert_all(error.details, entries)) == detail_each(error, entries),
    decreases entries.len(),
{
    if entries.len() > 0 {
        lemma_details_is_successive_detail(error, entries.drop_last());
    }
}

} // verus!
