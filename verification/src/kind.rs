use vstd::prelude::*;

verus! {

/// A high-level classification of an application error.
///
/// `ErrorKind` describes the general category of an error without encoding
/// domain-specific details; more specific identification belongs in an
/// error code and structured context in error details.
#[derive(Debug, Clone, Copy, PartialEq, Eq, Hash, PartialOrd, Ord, Structural)]
#[non_exhaustive]
pub enum ErrorKind {
    /// The request or input data is invalid.
    Validation,
    /// Authentication is required or has failed.
    Unauthorized,
    /// The caller is authenticated but not allowed to perform the action.
    Forbidden,
    /// The requested resource does not exist.
    NotFound,
    /// The operation conflicts with the current state of the system.
    Conflict,
    /// The caller has exceeded a limit and should slow down.
    RateLimited,
    /// The operation exceeded its allowed time window.
    Timeout,
    /// The operation was intentionally cancelled.
    Cancelled,
    /// The service is temporarily unable to handle the request.
    Unavailable,
    /// The failure originated from an external dependency or upstream system.
    External,
    /// An unexpected internal failure occurred.
    Internal,
}

/// The stable machine-readable name of a kind.
pub open spec fn kind_name(kind: ErrorKind) -> Seq<char> {
    match kind {
        ErrorKind::Validation => "validation"@,
        ErrorKind::Unauthorized => "unauthorized"@,
        ErrorKind::Forbidden => "forbidden"@,
        ErrorKind::NotFound => "not_found"@,
        ErrorKind::Conflict => "conflict"@,
        ErrorKind::RateLimited => "rate_limited"@,
        ErrorKind::Timeout => "timeout"@,
        ErrorKind::Cancelled => "cancelled"@,
        ErrorKind::Unavailable => "unavailable"@,
        ErrorKind::External => "external"@,
        ErrorKind::Internal => "internal"@,
    }
}

/// Whether a kind typically represents a client-side failure.
pub open spec fn kind_is_client_fault(kind: ErrorKind) -> bool {
    match kind {
        ErrorKind::Validation | ErrorKind::Unauthorized | ErrorKind::Forbidden
        | ErrorKind::NotFound | ErrorKind::Conflict | ErrorKind::RateLimited => true,
        _ => false,
    }
}

impl ErrorKind {
    /// Returns a stable, machine-readable string representation.
    pub fn as_str(&self) -> (name: &'static str)
        ensures
            name@ == kind_name(*self),
    {
        match self {
            ErrorKind::Validation => "validation",
            ErrorKind::Unauthorized => "unauthorized",
            ErrorKind::Forbidden => "forbidden",
            ErrorKind::NotFound => "not_found",
            ErrorKind::Conflict => "conflict",
            ErrorKind::RateLimited => "rate_limited",
            ErrorKind::Timeout => "timeout",
            ErrorKind::Cancelled => "cancelled",
            ErrorKind::Unavailable => "unavailable",
            ErrorKind::External => "external",
            ErrorKind::Internal => "internal",
        }
    }

    /// Returns `true` if this error kind typically represents a client-side failure.
    pub fn is_client_fault(&self) -> (client: bool)
        ensures
            client == kind_is_client_fault(*self),
    {
        match self {
            ErrorKind::Validation | ErrorKind::Unauthorized | ErrorKind::Forbidden
            | ErrorKind::NotFound | ErrorKind::Conflict | ErrorKind::RateLimited => true,
            _ => false,
        }
    }

    /// Returns `true` if this error kind typically represents a server-side failure.
    ///
    /// Every kind is exactly one of client fault and server fault.
    pub fn is_server_fault(&self) -> (server: bool)
        ensures
            server == !kind_is_client_fault(*self),
    {
        !self.is_client_fault()
    }

    /// Returns the machine-readable name as an owned string.
    pub fn to_string(&self) -> (text: String)
        ensures
            text@ == kind_name(*self),
    {
        String::from_str(self.as_str())
    }
}

/// Distinct kinds have distinct machine-readable names.
pub proof fn lemma_kind_names_distinct(a: ErrorKind, b: ErrorKind)
    requires
        a != b,
    ensures
        kind_name(a) != kind_name(b),
{
    reveal_strlit("validation");
    reveal_strlit("unauthorized");
    reveal_strlit("forbidden");
    reveal_strlit("not_found");
    reveal_strlit("conflict");
    reveal_strlit("rate_limited");
    reveal_strlit("timeout");
    reveal_strlit("cancelled");
    reveal_strlit("unavailable");
    reveal_strlit("external");
    reveal_strlit("internal");
    if kind_name(a) == kind_name(b) {
        let na = kind_name(a);
        let nb = kind_name(b);
        assert(na.len() == nb.len());
        assert(na[0] == nb[0]);
        assert(na[1] == nb[1]);
        assert(na[2] == nb[2]);
    }
}

} // verus!
