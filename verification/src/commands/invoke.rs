//! Options of unary and streaming calls: the stream type, the authority
//! override, the TLS settings handed to the transport, and what is sent
//! first on a new stream.

use vstd::prelude::*;
use vstd::string::StringExecFns;
use crate::grpc::client::{TlsConfig, GrpcError, UnaryResponse};
use crate::grpc::streaming::{parse_json_value, spec_json_parse_error};
use crate::grpc::metadata::{opt_text, StringMap};
use crate::grpc::streaming::StreamType;
use crate::storage::models::TLSConfig;
use crate::text::{str_eq, trim_str, trimmed};

verus! {

/// The text of a stream-type name that is not one of the three known ones.
pub open spec fn invalid_stream_type_message(name: Seq<char>) -> Seq<char> {
    "Invalid stream type: "@ + name + ". Expected 'server', 'client', or 'bidi'"@
}

/// The stream type named by `name`, if it names one.
pub open spec fn stream_type_named(name: Seq<char>) -> Option<StreamType> {
    if name == "server"@ {
        Some(StreamType::ServerStreaming)
    } else if name == "client"@ {
        Some(StreamType::ClientStreaming)
    } else if name == "bidi"@ {
        Some(StreamType::Bidirectional)
    } else {
        None
    }
}

/// Reads a stream type: "server", "client" or "bidi".
pub fn parse_stream_type(stream_type: &str) -> (r: Result<StreamType, String>)
    ensures
        match stream_type_named(stream_type@) {
            Some(t) => r == Ok::<StreamType, String>(t),
            None => r is Err && r->Err_0@ == invalid_stream_type_message(stream_type@),
        },
{
    if str_eq(stream_type, "server") {
        Ok(StreamType::ServerStreaming)
    } else if str_eq(stream_type, "client") {
        Ok(StreamType::ClientStreaming)
    } else if str_eq(stream_type, "bidi") {
        Ok(StreamType::Bidirectional)
    } else {
        let mut m = String::from_str("Invalid stream type: ");
        m.append(stream_type);
        m.append(". Expected 'server', 'client', or 'bidi'");
        Err(m)
    }
}

/// `o` trimmed, when something is left of it.
pub open spec fn nonblank(o: Option<Seq<char>>) -> Option<Seq<char>> {
    match o {
        Some(s) => if trimmed(s).len() > 0 {
            Some(trimmed(s))
        } else {
            None
        },
        None => None,
    }
}

/// The view of an optional string slice.
pub open spec fn opt_str(o: Option<&str>) -> Option<Seq<char>> {
    match o {
        Some(s) => Some(s@),
        None => None,
    }
}

/// The authority a call uses: the request's own when it is not blank,
/// else the server name of the environment's TLS settings when that is
/// not blank; trimmed either way.
pub open spec fn resolved_authority(authority: Option<Seq<char>>, server_name: Option<Seq<char>>) -> Option<Seq<char>> {
    match nonblank(authority) {
        Some(a) => Some(a),
        None => nonblank(server_name),
    }
}

/// The server name in optional TLS settings.
pub open spec fn tls_server_name(tls: Option<&TLSConfig>) -> Option<Seq<char>> {
    match tls {
        Some(t) => opt_text(t.server_name),
        None => None,
    }
}

/// `value` trimmed, or `None` when nothing is left of it.
fn nonblank_text(value: &str) -> (r: Option<String>)
    ensures
        opt_text(r) == nonblank(Some(value@)),
{
    let t = trim_str(value);
    if t.as_str().unicode_len() == 0 {
        None
    } else {
        Some(t)
    }
}

/// Resolves the authority override of a call: the request's value first,
/// then the TLS server name, each trimmed and ignored when blank.
pub fn resolve_request_authority(authority: Option<&str>, tls: Option<&TLSConfig>) -> (r: Option<String>)
    ensures
        opt_text(r) == resolved_authority(opt_str(authority), tls_server_name(tls)),
{
    let first = match authority {
        Some(a) => nonblank_text(a),
        None => None,
    };
    match first {
        Some(a) => Some(a),
        None => match tls {
            Some(t) => match &t.server_name {
                Some(n) => nonblank_text(n.as_str()),
                None => None,
            },
            None => None,
        },
    }
}

/// Whether `r` carries the paths and the verification flag of `t`.
pub open spec fn stream_tls_of(t: TLSConfig, r: TlsConfig) -> bool {
    &&& r.insecure == t.insecure
    &&& opt_text(r.ca_cert_path) == opt_text(t.ca_file)
    &&& opt_text(r.client_cert_path) == opt_text(t.cert_file)
    &&& opt_text(r.client_key_path) == opt_text(t.key_file)
}

/// The transport TLS settings of a stream: none when the environment has
/// no TLS settings or has them disabled, else its paths and flag.
pub fn build_stream_tls_config(tls: Option<&TLSConfig>) -> (r: Option<TlsConfig>)
    ensures
        match tls {
            Some(t) if t.enabled => r is Some && stream_tls_of(*t, r->Some_0),
            _ => r is None,
        },
{
    let t = match tls {
        Some(t) => t,
        None => return None,
    };
    if !t.enabled {
        return None;
    }
    Some(TlsConfig {
        insecure: t.insecure,
        ca_cert_path: t.ca_file.clone(),
        client_cert_path: t.cert_file.clone(),
        client_key_path: t.key_file.clone(),
    })
}

/// Whether a new stream gets the request body as its first message: it
/// does unless the body is blank, whatever the stream type.
pub fn should_send_initial_stream_message(stream_type: StreamType, body: &str) -> (r: bool)
    ensures
        r == (trimmed(body@).len() > 0),
{
    let t = trim_str(body);
    if t.as_str().unicode_len() == 0 {
        return false;
    }
    match stream_type {
        StreamType::ServerStreaming | StreamType::ClientStreaming | StreamType::Bidirectional => true,
    }
}

/// How a stream starts: the request handed over when it is opened, and
/// whether the body is then sent as a first message.
pub struct StreamStart {
    pub initial_request: Option<String>,
    pub send_body_after_open: bool,
}

/// Plans the start of a stream: a server stream is opened with the body as
/// its request; client and bidirectional streams are opened empty and get
/// the body as a first message unless it is blank.
pub fn plan_stream_start(stream_type: StreamType, body: &str) -> (r: StreamStart)
    ensures
        stream_type is ServerStreaming ==> r.initial_request is Some && r.initial_request->Some_0@ == body@
            && !r.send_body_after_open,
        !(stream_type is ServerStreaming) ==> r.initial_request is None
            && r.send_body_after_open == (trimmed(body@).len() > 0),
{
    let send = should_send_initial_stream_message(stream_type, body);
    match stream_type {
        StreamType::ServerStreaming => StreamStart {
            initial_request: Some(String::from_str(body)),
            send_body_after_open: false,
        },
        _ => StreamStart { initial_request: None, send_body_after_open: send },
    }
}

/// The answer to closing a stream, given what closing it as a stream of
/// the transport gave (`native_error`, its error text if it failed) and
/// whether closing it as a stream of the older event path succeeded:
/// success unless both failed and the first error does not say "not
/// found".
pub fn close_stream_outcome(native_error: Option<String>, legacy_closed: bool) -> (r: Result<(), String>)
    ensures
        match native_error {
            None => r is Ok,
            Some(e) => if legacy_closed || crate::text::contains_seq(e@, "not found"@) {
                r is Ok
            } else {
                r is Err && r->Err_0@ == e@
            },
        },
{
    match native_error {
        None => Ok(()),
        Some(e) => {
            if legacy_closed {
                return Ok(());
            }
            if crate::text::str_contains(e.as_str(), "not found") {
                return Ok(());
            }
            Err(e)
        },
    }
}


/// The answer to a unary call.
#[derive(Debug)]
pub struct InvokeResponse {
    /// The response document, when one was read.
    pub data: Option<serde_json::Value>,
    pub error: Option<String>,
    pub metadata: StringMap,
    /// Milliseconds the call took.
    pub duration: u64,
    /// "OK" or "ERROR".
    pub status: String,
    pub code: i32,
    pub message: String,
}

/// Whether `r` is the answer to a call that failed before any response,
/// with `error` as its error text and `message` as its message.
pub open spec fn failed_invoke(r: InvokeResponse, error: Seq<char>, message: Seq<char>) -> bool {
    &&& r.data is None
    &&& r.error is Some && r.error->Some_0@ == error
    &&& r.metadata@ == Map::<Seq<char>, Seq<char>>::empty()
    &&& r.duration == 0
    &&& r.status@ == "ERROR"@
    &&& r.code == -1
    &&& r.message@ == message
}

/// The answer when connecting to the server failed.
pub fn invoke_connect_failure(e: &GrpcError) -> (r: InvokeResponse)
    ensures
        failed_invoke(r, "Failed to connect: "@ + e.message(), e.message()),
{
    let text = e.to_string();
    let error = String::from_str("Failed to connect: ").concat(text.as_str());
    InvokeResponse {
        data: None,
        error: Some(error),
        metadata: StringMap::new(),
        duration: 0,
        status: String::from_str("ERROR"),
        code: -1,
        message: text,
    }
}

/// The answer when the call itself failed.
pub fn invoke_call_failure(e: &GrpcError) -> (r: InvokeResponse)
    ensures
        failed_invoke(r, e.message(), e.message()),
{
    let text = e.to_string();
    let message = e.to_string();
    InvokeResponse {
        data: None,
        error: Some(text),
        metadata: StringMap::new(),
        duration: 0,
        status: String::from_str("ERROR"),
        code: -1,
        message,
    }
}

/// The text of a response document that could not be read.
pub open spec fn unreadable_response_message(parse_error: Seq<char>) -> Seq<char> {
    "Failed to parse response: "@ + parse_error
}

/// The answer to a call that got `response`, given what reading its
/// document gave: the document, with the status, code and message of the
/// call and its message as error when the code is not 0; or, when the
/// document could not be read, an "ERROR" answer saying so, with the
/// call's code. Metadata and duration are the call's either way.
pub fn invoke_response_with(response: UnaryResponse, parsed: Result<serde_json::Value, String>) -> (r: InvokeResponse)
    ensures
        r.metadata == response.metadata,
        r.duration == response.duration_ms,
        r.code == response.status.code,
        match parsed {
            Ok(v) => {
                &&& r.data == Some(v)
                &&& r.status == response.status.status
                &&& r.message == response.status.message
                &&& response.status.code == 0 ==> r.error is None
                &&& response.status.code != 0 ==> r.error is Some && r.error->Some_0@ == response.status.message@
            },
            Err(pe) => {
                &&& r.data is None
                &&& r.status@ == "ERROR"@
                &&& r.error is Some && r.error->Some_0@ == unreadable_response_message(pe@)
                &&& r.message@ == unreadable_response_message(pe@)
            },
        },
{
    match parsed {
        Ok(v) => {
            let error = if response.status.code == 0 {
                None
            } else {
                Some(response.status.message.clone())
            };
            InvokeResponse {
                data: Some(v),
                error,
                metadata: response.metadata,
                duration: response.duration_ms,
                status: response.status.status,
                code: response.status.code,
                message: response.status.message,
            }
        },
        Err(pe) => {
            let text = String::from_str("Failed to parse response: ").concat(pe.as_str());
            let message = String::from_str("Failed to parse response: ").concat(pe.as_str());
            InvokeResponse {
                data: None,
                error: Some(text),
                metadata: response.metadata,
                duration: response.duration_ms,
                status: String::from_str("ERROR"),
                code: response.status.code,
                message,
            }
        },
    }
}

/// The answer to a call that got `response`: its document read with
/// `serde_json`, then as [`invoke_response_with`] says.
pub fn invoke_response_of(response: UnaryResponse) -> (r: InvokeResponse)
    ensures
        r.metadata == response.metadata,
        r.duration == response.duration_ms,
        r.code == response.status.code,
        match spec_json_parse_error(response.json_payload@) {
            None => r.data is Some && r.status == response.status.status && r.message == response.status.message
                && (response.status.code == 0 <==> r.error is None),
            Some(pe) => r.data is None && r.status@ == "ERROR"@ && r.message@ == unreadable_response_message(pe),
        },
{
    let parsed = parse_json_value(response.json_payload.as_str());
    invoke_response_with(response, parsed)
}

} // verus!
