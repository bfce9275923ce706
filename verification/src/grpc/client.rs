//! Client-level shapes of gRPC calls: TLS settings, responses, statuses,
//! errors, the transport configuration a client asks for, and the decisions
//! of unary and server-streaming calls.

use vstd::prelude::*;
use vstd::string::StringExecFns;
use crate::text::{contains_seq, str_contains};
use crate::ffi::error::FfiError;
use crate::grpc::metadata::{StringMap, header_entries};
use crate::grpc::transport::{GrpcStatus, TransportError, TransportConfig, UnaryResponse as TransportUnaryResponse, resolve_grpc_status, resolved_code, resolved_message};

verus! {

/// TLS configuration for gRPC connections.
#[derive(Debug, Clone, PartialEq)]
pub struct TlsConfig {
    /// Whether to skip TLS verification.
    pub insecure: bool,
    /// Path to CA certificate file.
    pub ca_cert_path: Option<String>,
    /// Path to client certificate file.
    pub client_cert_path: Option<String>,
    /// Path to client key file.
    pub client_key_path: Option<String>,
}

/// Response status.
#[derive(Debug, Clone, PartialEq)]
pub struct ResponseStatus {
    /// Status code (0 = OK).
    pub code: i32,
    /// Status message.
    pub message: String,
    /// Status as string ("OK" or "ERROR").
    pub status: String,
}

/// Unary call response.
#[derive(Debug)]
pub struct UnaryResponse {
    /// JSON-encoded response payload.
    pub json_payload: String,
    /// Response metadata (headers and trailers).
    pub metadata: StringMap,
    /// gRPC status.
    pub status: ResponseStatus,
    /// Duration in milliseconds.
    pub duration_ms: u64,
}

/// Server streaming response item.
#[derive(Debug)]
pub struct StreamResponse {
    /// JSON-encoded response payload.
    pub json_payload: String,
    /// Response metadata; present on the first message only.
    pub metadata: Option<StringMap>,
    /// gRPC status; present on the final item only.
    pub status: Option<ResponseStatus>,
}

/// gRPC client errors.
#[derive(Debug, Clone)]
pub enum GrpcError {
    /// Transport error.
    Transport(TransportError),
    /// Encoding error.
    Encoding(String),
    /// Decoding error.
    Decoding(String),
    /// Invalid method name.
    InvalidMethod(String),
    /// Connection not established.
    NotConnected,
    /// Timeout.
    Timeout,
}

impl GrpcError {
    /// The user-facing text of the error.
    pub open spec fn message(&self) -> Seq<char> {
        match self {
            GrpcError::Transport(e) => "Transport error: "@ + e.message(),
            GrpcError::Encoding(m) => "Encoding error: "@ + m@,
            GrpcError::Decoding(m) => "Decoding error: "@ + m@,
            GrpcError::InvalidMethod(m) => "Invalid method: "@ + m@,
            GrpcError::NotConnected => "Not connected to gRPC server"@,
            GrpcError::Timeout => "Request timed out"@,
        }
    }

    /// The user-facing text of the error.
    pub fn to_string(&self) -> (r: String)
        ensures
            r@ == self.message(),
    {
        match self {
            GrpcError::Transport(e) => String::from_str("Transport error: ").concat(e.to_string().as_str()),
            GrpcError::Encoding(m) => String::from_str("Encoding error: ").concat(m.as_str()),
            GrpcError::Decoding(m) => String::from_str("Decoding error: ").concat(m.as_str()),
            GrpcError::InvalidMethod(m) => String::from_str("Invalid method: ").concat(m.as_str()),
            GrpcError::NotConnected => String::from_str("Not connected to gRPC server"),
            GrpcError::Timeout => String::from_str("Request timed out"),
        }
    }

    /// The client error for a codec error: a failed encode call is an
    /// encoding error, another failed call a decoding error (both with the
    /// Go-side text), a bad method name an invalid method, anything else an
    /// encoding error with the codec error's text.
    pub fn from_ffi_error(e: FfiError) -> (r: GrpcError)
        ensures
            match e {
                FfiError::FfiCallFailed { function, message } => if contains_seq(function@, "encode"@) {
                    r matches GrpcError::Encoding(m) && m@ == message@
                } else {
                    r matches GrpcError::Decoding(m) && m@ == message@
                },
                FfiError::InvalidMethodName { name } => r matches GrpcError::InvalidMethod(m) && m@ == name@,
                _ => r matches GrpcError::Encoding(m) && m@ == e.message(),
            },
    {
        match e {
            FfiError::FfiCallFailed { function, message } => {
                if str_contains(function.as_str(), "encode") {
                    GrpcError::Encoding(message)
                } else {
                    GrpcError::Decoding(message)
                }
            },
            FfiError::InvalidMethodName { name } => GrpcError::InvalidMethod(name),
            _ => GrpcError::Encoding(e.to_string()),
        }
    }
}

impl From<TransportError> for GrpcError {
    fn from(e: TransportError) -> (r: GrpcError)
        ensures
            e is Timeout ==> r is Timeout,
            !(e is Timeout) ==> r == GrpcError::Transport(e),
    {
        match e {
            TransportError::Timeout => GrpcError::Timeout,
            _ => GrpcError::Transport(e),
        }
    }
}

impl vstd::std_specs::convert::FromSpecImpl<TransportError> for GrpcError {
    /// A transport timeout becomes a client timeout; any other transport
    /// error is wrapped as it is.
    open spec fn obeys_from_spec() -> bool {
        true
    }

    open spec fn from_spec(v: TransportError) -> GrpcError {
        match v {
            TransportError::Timeout => GrpcError::Timeout,
            _ => GrpcError::Transport(v),
        }
    }
}

impl From<FfiError> for GrpcError {
    fn from(e: FfiError) -> (r: GrpcError)
        ensures
            match e {
                FfiError::FfiCallFailed { function, message } => if contains_seq(function@, "encode"@) {
                    r matches GrpcError::Encoding(m) && m@ == message@
                } else {
                    r matches GrpcError::Decoding(m) && m@ == message@
                },
                FfiError::InvalidMethodName { name } => r matches GrpcError::InvalidMethod(m) && m@ == name@,
                _ => r matches GrpcError::Encoding(m) && m@ == e.message(),
            },
    {
        GrpcError::from_ffi_error(e)
    }
}

impl vstd::std_specs::convert::FromSpecImpl<FfiError> for GrpcError {
    /// `from` states its result in its own `ensures`; a spec function
    /// cannot build the error's strings.
    open spec fn obeys_from_spec() -> bool {
        false
    }

    open spec fn from_spec(v: FfiError) -> GrpcError {
        vstd::pervasive::arbitrary()
    }
}

/// The transport configuration a client uses: plaintext unless TLS settings
/// are given, in which case their `insecure` flag decides; default timeout.
pub fn build_transport_config(tls: Option<TlsConfig>, authority: Option<String>) -> (c: TransportConfig)
    ensures
        c.timeout_ms == 30000,
        c.tls_config is None,
        c.authority == authority,
        c.insecure == (match tls {
            Some(t) => t.insecure,
            None => true,
        }),
{
    let defaults = TransportConfig::default();
    match tls {
        Some(t) => TransportConfig { insecure: t.insecure, authority, timeout_ms: defaults.timeout_ms, tls_config: None },
        None => TransportConfig { insecure: true, authority, timeout_ms: defaults.timeout_ms, tls_config: None },
    }
}

/// Whether `r` is the response status for the transport status `st`.
pub open spec fn is_response_status_of(r: ResponseStatus, st: GrpcStatus) -> bool {
    match st {
        GrpcStatus::Success => r.code == 0 && r.message@ == "OK"@ && r.status@ == "OK"@,
        GrpcStatus::Error { code, message } => r.code == code && r.message@ == message@ && r.status@
            == "ERROR"@,
    }
}

/// The response status for a transport status.
pub fn response_status_of(st: &GrpcStatus) -> (r: ResponseStatus)
    ensures
        is_response_status_of(r, *st),
{
    match st {
        GrpcStatus::Success => ResponseStatus {
            code: 0,
            message: String::from_str("OK"),
            status: String::from_str("OK"),
        },
        GrpcStatus::Error { code, message } => ResponseStatus {
            code: *code,
            message: message.clone(),
            status: String::from_str("ERROR"),
        },
    }
}

/// The client response of a unary call: the decoded JSON (`"{}"` for an
/// empty body, which is not decoded), the transport's metadata and
/// duration, and the status.
pub fn assemble_unary_response(transport_response: TransportUnaryResponse, decoded: Option<String>) -> (r: UnaryResponse)
    requires
        (transport_response.body@.len() == 0) == (decoded is None),
    ensures
        r.json_payload@ == (match decoded {
            Some(j) => j@,
            None => "{}"@,
        }),
        r.metadata@ == transport_response.metadata@,
        is_response_status_of(r.status, transport_response.status),
        r.duration_ms == transport_response.duration_ms,
{
    let status = response_status_of(&transport_response.status);
    let json_payload = match decoded {
        Some(j) => j,
        None => String::from_str("{}"),
    };
    UnaryResponse {
        json_payload,
        metadata: transport_response.metadata,
        status,
        duration_ms: transport_response.duration_ms,
    }
}

/// What a server-streaming call remembers between messages.
#[derive(Debug)]
pub struct ServerStreamState {
    /// Whether no message has been delivered yet.
    pub first_message: bool,
}

impl ServerStreamState {
    /// The state before the first message.
    pub fn new() -> (s: Self)
        ensures
            s.first_message,
    {
        ServerStreamState { first_message: true }
    }
}

/// The item for a decoded server-streaming message: the response metadata
/// rides on the first message only.
pub fn server_stream_message(
    state: &mut ServerStreamState,
    json_payload: String,
    response_metadata: &StringMap,
) -> (r: StreamResponse)
    ensures
        r.json_payload@ == json_payload@,
        r.status is None,
        old(state).first_message ==> (r.metadata matches Some(m) && m@ == response_metadata@),
        !old(state).first_message ==> r.metadata is None,
        !final(state).first_message,
{
    let metadata = if state.first_message {
        state.first_message = false;
        Some(response_metadata.duplicate())
    } else {
        None
    };
    StreamResponse { json_payload, metadata, status: None }
}

/// The final item of a server-streaming call: an empty JSON object and the
/// status of the call, read from the trailers first, then from the
/// response headers, and success when neither carries one.
pub fn server_stream_final(
    headers: &Vec<(String, Option<String>)>,
    trailers: &Vec<(String, Option<String>)>,
) -> (r: StreamResponse)
    ensures
        r.json_payload@ == "{}"@,
        r.metadata is None,
        r.status matches Some(st) && ({
            let code = resolved_code(header_entries(trailers@), header_entries(headers@));
            if code == 0 {
                st.code == 0 && st.message@ == "OK"@ && st.status@ == "OK"@
            } else {
                st.code == code && st.status@ == "ERROR"@ && st.message@ == (match resolved_message(
                    header_entries(trailers@),
                    header_entries(headers@),
                ) {
                    Some(m) => m,
                    None => "Unknown error"@,
                })
            }
        }),
{
    let resolved = resolve_grpc_status(trailers, headers);
    let status = response_status_of(&resolved);
    StreamResponse { json_payload: String::from_str("{}"), metadata: None, status: Some(status) }
}

} // verus!
