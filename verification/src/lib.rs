//! Typed, transport-aware application errors: a kind, a stable code,
//! structured details and retry guidance, with mappings to HTTP status
//! codes, gRPC statuses and a transport-safe response shape.
pub mod code;
pub mod detail;
pub mod details;
pub mod error;
pub mod grpc;
pub mod http_status;
pub mod kind;
pub mod response;
pub mod retry;
pub mod text;

pub use code::{ErrorCode, InvalidErrorCode};
pub use detail::{DetailValue, IntoDetailValue};
pub use details::ErrorDetails;
pub use error::{AppError, AppErrorParts, ErrorSource};
pub use http_status::HttpErrorExt;
pub use kind::ErrorKind;
pub use response::ErrorResponse;
pub use retry::RetryHint;
pub use text::IntoText;
