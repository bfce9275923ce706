//! Application error taxonomy, its user-facing texts and codes, and the
//! classification of errors reported by the codec and the network.

use vstd::prelude::*;
use vstd::string::StringExecFns;
use crate::text::{contains_seq, str_contains, owned};
use crate::ffi::error::{io_error_text, json_error_text};

verus! {

/// Application error types.
#[derive(Debug, Clone)]
pub enum AppError {
    /// Sidecar-related errors.
    SidecarNotRunning,
    SidecarStartFailed(String),
    SidecarCommunicationFailed(String),
    /// gRPC-related errors.
    GrpcConnectionFailed(String),
    GrpcInvokeFailed(String),
    GrpcStreamFailed(String),
    GrpcServiceNotFound(String),
    GrpcMethodNotFound(String),
    /// Storage-related errors.
    StorageReadFailed(String),
    StorageWriteFailed(String),
    StorageNotFound(String),
    /// Serialization errors.
    SerializationFailed(String),
    DeserializationFailed(String),
    /// Network errors.
    NetworkError(String),
    TimeoutError,
    /// Unknown errors.
    Unknown(String),
}

impl AppError {
    /// The user-facing text of the error.
    pub open spec fn message(&self) -> Seq<char> {
        match self {
            AppError::SidecarNotRunning => "Sidecar is not running"@,
            AppError::SidecarStartFailed(m) => "Failed to start sidecar: "@ + m@,
            AppError::SidecarCommunicationFailed(m) => "Sidecar communication failed: "@ + m@,
            AppError::GrpcConnectionFailed(m) => "gRPC connection failed: "@ + m@,
            AppError::GrpcInvokeFailed(m) => "gRPC invocation failed: "@ + m@,
            AppError::GrpcStreamFailed(m) => "gRPC stream failed: "@ + m@,
            AppError::GrpcServiceNotFound(m) => "Service not found: "@ + m@,
            AppError::GrpcMethodNotFound(m) => "Method not found: "@ + m@,
            AppError::StorageReadFailed(m) => "Storage read failed: "@ + m@,
            AppError::StorageWriteFailed(m) => "Storage write failed: "@ + m@,
            AppError::StorageNotFound(m) => "Storage item not found: "@ + m@,
            AppError::SerializationFailed(m) => "Serialization failed: "@ + m@,
            AppError::DeserializationFailed(m) => "Deserialization failed: "@ + m@,
            AppError::NetworkError(m) => "Network error: "@ + m@,
            AppError::TimeoutError => "Operation timed out"@,
            AppError::Unknown(m) => "Unknown error: "@ + m@,
        }
    }

    /// The machine-readable code of the error kind.
    pub open spec fn code(&self) -> Seq<char> {
        match self {
            AppError::SidecarNotRunning => "SIDECAR_NOT_RUNNING"@,
            AppError::SidecarStartFailed(_) => "SIDECAR_START_FAILED"@,
            AppError::SidecarCommunicationFailed(_) => "SIDECAR_COMMUNICATION_FAILED"@,
            AppError::GrpcConnectionFailed(_) => "GRPC_CONNECTION_FAILED"@,
            AppError::GrpcInvokeFailed(_) => "GRPC_INVOKE_FAILED"@,
            AppError::GrpcStreamFailed(_) => "GRPC_STREAM_FAILED"@,
            AppError::GrpcServiceNotFound(_) => "GRPC_SERVICE_NOT_FOUND"@,
            AppError::GrpcMethodNotFound(_) => "GRPC_METHOD_NOT_FOUND"@,
            AppError::StorageReadFailed(_) => "STORAGE_READ_FAILED"@,
            AppError::StorageWriteFailed(_) => "STORAGE_WRITE_FAILED"@,
            AppError::StorageNotFound(_) => "STORAGE_NOT_FOUND"@,
            AppError::SerializationFailed(_) => "SERIALIZATION_FAILED"@,
            AppError::DeserializationFailed(_) => "DESERIALIZATION_FAILED"@,
            AppError::NetworkError(_) => "NETWORK_ERROR"@,
            AppError::TimeoutError => "TIMEOUT_ERROR"@,
            AppError::Unknown(_) => "UNKNOWN_ERROR"@,
        }
    }

    /// The user-facing text of the error.
    pub fn to_string(&self) -> (r: String)
        ensures
            r@ == self.message(),
    {
        match self {
            AppError::SidecarNotRunning => String::from_str("Sidecar is not running"),
            AppError::SidecarStartFailed(m) => String::from_str("Failed to start sidecar: ").concat(m.as_str()),
            AppError::SidecarCommunicationFailed(m) => String::from_str("Sidecar communication failed: ").concat(m.as_str()),
            AppError::GrpcConnectionFailed(m) => String::from_str("gRPC connection failed: ").concat(m.as_str()),
            AppError::GrpcInvokeFailed(m) => String::from_str("gRPC invocation failed: ").concat(m.as_str()),
            AppError::GrpcStreamFailed(m) => String::from_str("gRPC stream failed: ").concat(m.as_str()),
            AppError::GrpcServiceNotFound(m) => String::from_str("Service not found: ").concat(m.as_str()),
            AppError::GrpcMethodNotFound(m) => String::from_str("Method not found: ").concat(m.as_str()),
            AppError::StorageReadFailed(m) => String::from_str("Storage read failed: ").concat(m.as_str()),
            AppError::StorageWriteFailed(m) => String::from_str("Storage write failed: ").concat(m.as_str()),
            AppError::StorageNotFound(m) => String::from_str("Storage item not found: ").concat(m.as_str()),
            AppError::SerializationFailed(m) => String::from_str("Serialization failed: ").concat(m.as_str()),
            AppError::DeserializationFailed(m) => String::from_str("Deserialization failed: ").concat(m.as_str()),
            AppError::NetworkError(m) => String::from_str("Network error: ").concat(m.as_str()),
            AppError::TimeoutError => String::from_str("Operation timed out"),
            AppError::Unknown(m) => String::from_str("Unknown error: ").concat(m.as_str()),
        }
    }

    /// The machine-readable code of the error kind.
    pub fn code_str(&self) -> (r: &'static str)
        ensures
            r@ == self.code(),
    {
        match self {
            AppError::SidecarNotRunning => "SIDECAR_NOT_RUNNING",
            AppError::SidecarStartFailed(_) => "SIDECAR_START_FAILED",
            AppError::SidecarCommunicationFailed(_) => "SIDECAR_COMMUNICATION_FAILED",
            AppError::GrpcConnectionFailed(_) => "GRPC_CONNECTION_FAILED",
            AppError::GrpcInvokeFailed(_) => "GRPC_INVOKE_FAILED",
            AppError::GrpcStreamFailed(_) => "GRPC_STREAM_FAILED",
            AppError::GrpcServiceNotFound(_) => "GRPC_SERVICE_NOT_FOUND",
            AppError::GrpcMethodNotFound(_) => "GRPC_METHOD_NOT_FOUND",
            AppError::StorageReadFailed(_) => "STORAGE_READ_FAILED",
            AppError::StorageWriteFailed(_) => "STORAGE_WRITE_FAILED",
            AppError::StorageNotFound(_) => "STORAGE_NOT_FOUND",
            AppError::SerializationFailed(_) => "SERIALIZATION_FAILED",
            AppError::DeserializationFailed(_) => "DESERIALIZATION_FAILED",
            AppError::NetworkError(_) => "NETWORK_ERROR",
            AppError::TimeoutError => "TIMEOUT_ERROR",
            AppError::Unknown(_) => "UNKNOWN_ERROR",
        }
    }

    /// The error for a failed HTTP request to the sidecar: a timeout, a
    /// connection failure (with the error's text), or otherwise a
    /// communication failure (with the error's text).
    pub fn from_request_failure(is_timeout: bool, is_connect: bool, text: String) -> (r: AppError)
        ensures
            is_timeout ==> r is TimeoutError,
            !is_timeout && is_connect ==> (r matches AppError::NetworkError(m) && m@ == text@),
            !is_timeout && !is_connect ==> (r matches AppError::SidecarCommunicationFailed(m) && m@
                == text@),
    {
        if is_timeout {
            AppError::TimeoutError
        } else if is_connect {
            AppError::NetworkError(text)
        } else {
            AppError::SidecarCommunicationFailed(text)
        }
    }
}

/// An error of the HTTP client `reqwest`, carried through as it is.
#[verifier::external_type_specification]
#[verifier::external_body]
pub struct ExReqwestError(reqwest::Error);

/// Whether `reqwest` counts the error as a timeout.
///
/// Calls `reqwest::Error::is_timeout`, which looks through the error's
/// sources for a timeout; the error is opaque here, so nothing is stated of
/// the answer.
#[verifier::external_body]
fn request_timed_out(err: &reqwest::Error) -> bool {
    err.is_timeout()
}

/// Whether `reqwest` counts the error as a failure to connect.
///
/// Calls `reqwest::Error::is_connect`, which looks through the error's
/// sources for a connection failure; the error is opaque here, so nothing
/// is stated of the answer.
#[verifier::external_body]
fn request_failed_to_connect(err: &reqwest::Error) -> bool {
    err.is_connect()
}

/// The display text of a `reqwest` error.
///
/// Calls `Display` on `reqwest::Error`; the error is opaque here, so
/// nothing is stated of the text.
#[verifier::external_body]
fn request_error_text(err: &reqwest::Error) -> String {
    err.to_string()
}

impl From<reqwest::Error> for AppError {
    fn from(err: reqwest::Error) -> (r: AppError)
        ensures
            r is TimeoutError || r is NetworkError || r is SidecarCommunicationFailed,
    {
        let timed_out = request_timed_out(&err);
        let connect_failed = request_failed_to_connect(&err);
        AppError::from_request_failure(timed_out, connect_failed, request_error_text(&err))
    }
}

impl vstd::std_specs::convert::FromSpecImpl<reqwest::Error> for AppError {
    /// `from` states its result in its own `ensures`; the outside error is
    /// opaque, so no spec function of it can be written here.
    open spec fn obeys_from_spec() -> bool {
        false
    }

    open spec fn from_spec(v: reqwest::Error) -> AppError {
        vstd::pervasive::arbitrary()
    }
}

impl From<serde_json::Error> for AppError {
    fn from(err: serde_json::Error) -> (r: AppError)
        ensures
            r is DeserializationFailed,
    {
        AppError::DeserializationFailed(json_error_text(&err))
    }
}

impl vstd::std_specs::convert::FromSpecImpl<serde_json::Error> for AppError {
    /// `from` states its result in its own `ensures`; the outside error is
    /// opaque, so no spec function of it can be written here.
    open spec fn obeys_from_spec() -> bool {
        false
    }

    open spec fn from_spec(v: serde_json::Error) -> AppError {
        vstd::pervasive::arbitrary()
    }
}

impl From<std::io::Error> for AppError {
    fn from(err: std::io::Error) -> (r: AppError)
        ensures
            r is SidecarStartFailed,
    {
        AppError::SidecarStartFailed(io_error_text(&err))
    }
}

impl vstd::std_specs::convert::FromSpecImpl<std::io::Error> for AppError {
    /// `from` states its result in its own `ensures`; the outside error is
    /// opaque, so no spec function of it can be written here.
    open spec fn obeys_from_spec() -> bool {
        false
    }

    open spec fn from_spec(v: std::io::Error) -> AppError {
        vstd::pervasive::arbitrary()
    }
}

/// Maps a Go-side error text to an application error by its wording.
pub fn parse_go_error(error_str: &str) -> (r: AppError)
    ensures
        contains_seq(error_str@, "connection refused"@) ==> (r matches AppError::GrpcConnectionFailed(
            m,
        ) && m@ == error_str@),
        !contains_seq(error_str@, "connection refused"@) && contains_seq(error_str@, "timeout"@)
            ==> r is TimeoutError,
        !contains_seq(error_str@, "connection refused"@) && !contains_seq(error_str@, "timeout"@)
            && (contains_seq(error_str@, "not found"@) || contains_seq(
            error_str@,
            "unknown service"@,
        )) ==> (r matches AppError::GrpcServiceNotFound(m) && m@ == error_str@),
        !contains_seq(error_str@, "connection refused"@) && !contains_seq(error_str@, "timeout"@)
            && !contains_seq(error_str@, "not found"@) && !contains_seq(
            error_str@,
            "unknown service"@,
        ) && contains_seq(error_str@, "unknown method"@) ==> (r matches AppError::GrpcMethodNotFound(
            m,
        ) && m@ == error_str@),
        !contains_seq(error_str@, "connection refused"@) && !contains_seq(error_str@, "timeout"@)
            && !contains_seq(error_str@, "not found"@) && !contains_seq(
            error_str@,
            "unknown service"@,
        ) && !contains_seq(error_str@, "unknown method"@) ==> (r matches AppError::GrpcInvokeFailed(
            m,
        ) && m@ == error_str@),
{
    if str_contains(error_str, "connection refused") {
        AppError::GrpcConnectionFailed(owned(error_str))
    } else if str_contains(error_str, "timeout") {
        AppError::TimeoutError
    } else if str_contains(error_str, "not found") || str_contains(error_str, "unknown service") {
        AppError::GrpcServiceNotFound(owned(error_str))
    } else if str_contains(error_str, "unknown method") {
        AppError::GrpcMethodNotFound(owned(error_str))
    } else {
        AppError::GrpcInvokeFailed(owned(error_str))
    }
}

/// Error response for the frontend.
#[derive(Debug, Clone)]
pub struct ErrorResponse {
    pub code: String,
    pub message: String,
    pub details: Option<String>,
}

impl ErrorResponse {
    /// The response for `err`: its code, its text, no details.
    pub fn from_app_error(err: AppError) -> (r: ErrorResponse)
        ensures
            r.code@ == err.code(),
            r.message@ == err.message(),
            r.details is None,
    {
        let code = String::from_str(err.code_str());
        let message = err.to_string();
        ErrorResponse { code, message, details: None }
    }
}

impl From<AppError> for ErrorResponse {
    fn from(err: AppError) -> (r: ErrorResponse)
        ensures
            r.code@ == err.code(),
            r.message@ == err.message(),
            r.details is None,
    {
        ErrorResponse::from_app_error(err)
    }
}

impl vstd::std_specs::convert::FromSpecImpl<AppError> for ErrorResponse {
    /// `from` states its result in its own `ensures`; a spec function
    /// cannot build the response's strings.
    open spec fn obeys_from_spec() -> bool {
        false
    }

    open spec fn from_spec(v: AppError) -> ErrorResponse {
        vstd::pervasive::arbitrary()
    }
}

/// Conversion of a result into the shape the frontend commands return.
pub trait IntoTauriResult<T> {
    /// The result with its error replaced by the error's text.
    fn into_tauri(self) -> std::result::Result<T, String>;
}

impl<T> IntoTauriResult<T> for std::result::Result<T, AppError> {
    fn into_tauri(self) -> (r: std::result::Result<T, String>)
        ensures
            match (self, r) {
                (Ok(a), Ok(b)) => a == b,
                (Err(e), Err(m)) => m@ == e.message(),
                _ => false,
            },
    {
        match self {
            Ok(v) => Ok(v),
            Err(e) => Err(e.to_string()),
        }
    }
}

} // verus!
