//! gRPC over HTTP/2 transport logic: message framing, unary response
//! decoding, status resolution from headers and trailers, the transport
//! configuration and the connection plan that the runtime carries out.

use vstd::prelude::*;
use vstd::string::StringExecFns;
use crate::text::{decimal, push_decimal, trim_str, trimmed, str_starts_with, has_prefix, owned};
use crate::grpc::metadata::{
    StringMap, header_entries, metadata_of, first_header_text, status_code_of, parse_grpc_status,
    parse_grpc_message, add_header_entries, opt_text,
};

verus! {

/// Simplified status for responses.
#[derive(Debug, Clone, PartialEq)]
pub enum GrpcStatus {
    /// Successful call.
    Success,
    /// Error with code and message.
    Error { code: i32, message: String },
}

impl GrpcStatus {
    /// The status code: 0 for `Success`, the carried code otherwise.
    pub open spec fn spec_code(&self) -> i32 {
        match self {
            GrpcStatus::Success => 0,
            GrpcStatus::Error { code, .. } => *code,
        }
    }

    /// Label of the status: `"OK"` or `"ERROR"`.
    pub fn as_str(&self) -> (r: &'static str)
        ensures
            r@ == (if self is Success {
                "OK"@
            } else {
                "ERROR"@
            }),
    {
        match self {
            GrpcStatus::Success => "OK",
            GrpcStatus::Error { .. } => "ERROR",
        }
    }

    /// The status code.
    pub fn code(&self) -> (r: i32)
        ensures
            r == self.spec_code(),
    {
        match self {
            GrpcStatus::Success => 0,
            GrpcStatus::Error { code, .. } => *code,
        }
    }

    /// Whether the status is `Success`.
    pub fn is_ok(&self) -> (r: bool)
        ensures
            r == (self is Success),
    {
        match self {
            GrpcStatus::Success => true,
            GrpcStatus::Error { .. } => false,
        }
    }
}

/// Transport errors.
#[derive(Debug, Clone)]
pub enum TransportError {
    InvalidAddress(String),
    ConnectionFailed(String),
    TlsError(String),
    RequestError(String),
    ResponseError(String),
    Timeout,
}

impl TransportError {
    /// The human-readable text of the error.
    pub open spec fn message(&self) -> Seq<char> {
        match self {
            TransportError::InvalidAddress(m) => "Invalid address: "@ + m@,
            TransportError::ConnectionFailed(m) => "Connection failed: "@ + m@,
            TransportError::TlsError(m) => "TLS error: "@ + m@,
            TransportError::RequestError(m) => "Request error: "@ + m@,
            TransportError::ResponseError(m) => "Response error: "@ + m@,
            TransportError::Timeout => "Request timed out"@,
        }
    }

    /// The human-readable text of the error.
    pub fn to_string(&self) -> (r: String)
        ensures
            r@ == self.message(),
    {
        match self {
            TransportError::InvalidAddress(m) => String::from_str("Invalid address: ").concat(
                m.as_str(),
            ),
            TransportError::ConnectionFailed(m) => String::from_str(
                "Connection failed: ",
            ).concat(m.as_str()),
            TransportError::TlsError(m) => String::from_str("TLS error: ").concat(m.as_str()),
            TransportError::RequestError(m) => String::from_str("Request error: ").concat(
                m.as_str(),
            ),
            TransportError::ResponseError(m) => String::from_str("Response error: ").concat(
                m.as_str(),
            ),
            TransportError::Timeout => String::from_str("Request timed out"),
        }
    }
}

/// Largest payload length a gRPC frame header can carry.
pub open spec fn max_frame_payload() -> nat {
    4294967295
}

/// Big-endian encoding of `n` (`n < 2^32`) in four bytes.
pub open spec fn be_u32_bytes(n: nat) -> Seq<u8> {
    seq![
        (n / 16777216) as u8,
        ((n / 65536) % 256) as u8,
        ((n / 256) % 256) as u8,
        (n % 256) as u8,
    ]
}

/// The value of four big-endian bytes.
pub open spec fn be_u32_value(b: Seq<u8>) -> nat {
    (b[0] as nat) * 16777216 + (b[1] as nat) * 65536 + (b[2] as nat) * 256 + (b[3] as nat)
}

/// The gRPC message frame for `payload`: an uncompressed flag byte, the
/// payload length in four big-endian bytes, then the payload.
pub open spec fn frame_of(payload: Seq<u8>) -> Seq<u8> {
    seq![0u8] + be_u32_bytes(payload.len()) + payload
}

/// Error text for a frame header cut short.
pub open spec fn incomplete_header_message() -> Seq<char> {
    "Malformed gRPC frame: incomplete frame header"@
}

/// Error text for a compressed frame.
pub open spec fn compressed_message() -> Seq<char> {
    "Compressed gRPC response is not supported"@
}

/// Error text for a frame whose length runs past the body.
pub open spec fn overlong_message() -> Seq<char> {
    "Malformed gRPC frame: payload length exceeds available bytes"@
}

/// Error text for a second message frame in a unary response.
pub open spec fn multiple_frames_message() -> Seq<char> {
    "Unary gRPC response contains multiple message frames"@
}

/// Reads the frames of `body` from `off` on, `got` being the payload already
/// read; the result is the single payload, or the error text.
pub open spec fn frames_from(body: Seq<u8>, off: int, got: Option<Seq<u8>>) -> Result<
    Option<Seq<u8>>,
    Seq<char>,
>
    decreases body.len() - off,
{
    if off < 0 || off >= body.len() {
        Ok(got)
    } else if body.len() - off < 5 {
        Err(incomplete_header_message())
    } else if body[off] != 0 {
        Err(compressed_message())
    } else {
        let len = be_u32_value(body.subrange(off + 1, off + 5));
        if body.len() - (off + 5) < len {
            Err(overlong_message())
        } else if got is Some {
            Err(multiple_frames_message())
        } else {
            frames_from(body, off + 5 + len, Some(body.subrange(off + 5, off + 5 + len)))
        }
    }
}

/// The payload of a unary gRPC response body: empty for an empty body,
/// otherwise the one uncompressed message frame it must consist of.
pub open spec fn decoded_unary(body: Seq<u8>) -> Result<Seq<u8>, Seq<char>> {
    if body.len() == 0 {
        Ok(Seq::empty())
    } else {
        match frames_from(body, 0, None) {
            Ok(Some(p)) => Ok(p),
            Ok(None) => Ok(Seq::empty()),
            Err(e) => Err(e),
        }
    }
}

/// Error text for a payload too large to frame.
pub open spec fn too_large_message(len: nat) -> Seq<char> {
    "Request payload too large: "@ + decimal(len) + " bytes exceeds gRPC frame limit"@
}

proof fn lemma_be_u32_roundtrip(n: nat)
    requires
        n <= max_frame_payload(),
    ensures
        be_u32_value(be_u32_bytes(n)) == n,
{
    let b = be_u32_bytes(n);
    let a = n / 16777216;
    let r1 = n % 16777216;
    assert(n == a * 16777216 + r1) by (nonlinear_arith)
        requires
            a == n / 16777216,
            r1 == n % 16777216,
    ;
    assert(0 <= a < 256) by (nonlinear_arith)
        requires
            a == n / 16777216,
            n <= 4294967295,
    ;
    assert((n / 65536) % 256 == r1 / 65536) by (nonlinear_arith)
        requires
            a == n / 16777216,
            r1 == n % 16777216,
            n == a * 16777216 + r1,
    ;
    assert((n / 256) % 256 == (r1 % 65536) / 256) by (nonlinear_arith)
        requires
            r1 == n % 16777216,
            n == (n / 16777216) * 16777216 + r1,
    ;
    assert(n % 256 == r1 % 256) by (nonlinear_arith)
        requires
            r1 == n % 16777216,
            n == (n / 16777216) * 16777216 + r1,
    ;
    assert(r1 == (r1 / 65536) * 65536 + ((r1 % 65536) / 256) * 256 + r1 % 256) by (nonlinear_arith)
        requires
            0 <= r1,
    ;
    assert(r1 / 65536 < 256) by (nonlinear_arith)
        requires
            0 <= r1 < 16777216,
    ;
    assert(b[0] as nat == a);
    assert(b[1] as nat == r1 / 65536);
    assert(b[2] as nat == (r1 % 65536) / 256);
    assert(b[3] as nat == r1 % 256);
}

/// Decoding the frame of a payload gives the payload back.
pub proof fn lemma_unary_frame_roundtrip(payload: Seq<u8>)
    requires
        payload.len() <= max_frame_payload(),
    ensures
        decoded_unary(frame_of(payload)) == Ok::<Seq<u8>, Seq<char>>(payload),
{
    let body = frame_of(payload);
    let n = payload.len();
    lemma_be_u32_roundtrip(n);
    assert(body.subrange(1, 5) =~= be_u32_bytes(n));
    assert(body.subrange(5, 5 + n as int) =~= payload);
    assert(body[0] == 0u8);
    assert(frames_from(body, 5 + n as int, Some(payload)) == Ok::<Option<Seq<u8>>, Seq<char>>(
        Some(payload),
    ));
}

proof fn lemma_be_u32_bytes_of_value(b: Seq<u8>)
    requires
        b.len() == 4,
    ensures
        be_u32_bytes(be_u32_value(b)) =~= b,
        be_u32_value(b) <= max_frame_payload(),
{
    let b0 = b[0] as nat;
    let b1 = b[1] as nat;
    let b2 = b[2] as nat;
    let b3 = b[3] as nat;
    let v = be_u32_value(b);
    assert(v == b0 * 16777216 + b1 * 65536 + b2 * 256 + b3);
    assert(v / 16777216 == b0 && (v / 65536) % 256 == b1 && (v / 256) % 256 == b2 && v % 256 == b3
        && v <= 4294967295) by (nonlinear_arith)
        requires
            v == b0 * 16777216 + b1 * 65536 + b2 * 256 + b3,
            b0 < 256,
            b1 < 256,
            b2 < 256,
            b3 < 256,
    ;
}

/// A non-empty unary body that decodes to `p` is exactly the frame of `p`:
/// one uncompressed frame, nothing after it.
pub proof fn lemma_unary_frame_converse(body: Seq<u8>, p: Seq<u8>)
    requires
        body.len() > 0,
        decoded_unary(body) == Ok::<Seq<u8>, Seq<char>>(p),
    ensures
        body == frame_of(p),
{
    let len = be_u32_value(body.subrange(1, 5));
    assert(body.len() >= 5);
    assert(body[0] == 0u8);
    assert(body.len() - 5 >= len);
    let next = 5 + len;
    let sub = body.subrange(5, next as int);
    if next < body.len() {
        assert(frames_from(body, next as int, Some(sub)) is Err);
        assert(false);
    }
    assert(next == body.len());
    assert(frames_from(body, next as int, Some(sub)) == Ok::<Option<Seq<u8>>, Seq<char>>(Some(sub)));
    assert(p == sub);
    lemma_be_u32_bytes_of_value(body.subrange(1, 5));
    assert(p.len() == len);
    assert(body =~= seq![0u8] + be_u32_bytes(p.len()) + p) by {
        assert(be_u32_bytes(len) =~= body.subrange(1, 5));
        assert(body =~= body.subrange(0, 1) + body.subrange(1, 5) + body.subrange(5, body.len() as int));
        assert(body.subrange(0, 1) =~= seq![0u8]);
    }
}

/// Wraps `payload` in one uncompressed gRPC message frame.
pub fn encode_grpc_frame(payload: &[u8]) -> (r: Result<Vec<u8>, TransportError>)
    ensures
        payload@.len() <= max_frame_payload() ==> (r matches Ok(f) && f@ == frame_of(payload@)),
        payload@.len() > max_frame_payload() ==> (r matches Err(TransportError::RequestError(m))
            && m@ == too_large_message(payload@.len())),
{
    let len = payload.len();
    if len > 4294967295 {
        let mut m = String::from_str("Request payload too large: ");
        push_decimal(&mut m, len as u64);
        m.append(" bytes exceeds gRPC frame limit");
        return Err(TransportError::RequestError(m));
    }
    let n: u32 = len as u32;
    let mut framed: Vec<u8> = Vec::new();
    framed.push(0u8);
    framed.push((n / 16777216) as u8);
    framed.push(((n / 65536) % 256) as u8);
    framed.push(((n / 256) % 256) as u8);
    framed.push((n % 256) as u8);
    assert(framed@ =~= seq![0u8] + be_u32_bytes(len as nat));
    let mut i: usize = 0;
    while i < len
        invariant
            len == payload@.len(),
            i <= len,
            framed@ == seq![0u8] + be_u32_bytes(len as nat) + payload@.subrange(0, i as int),
        decreases len - i,
    {
        framed.push(payload[i]);
        i = i + 1;
        assert(framed@ =~= seq![0u8] + be_u32_bytes(len as nat) + payload@.subrange(0, i as int));
    }
    assert(payload@.subrange(0, len as int) =~= payload@);
    Ok(framed)
}

/// Extracts the single message of a unary gRPC response body.
pub fn decode_grpc_unary_response(body: &[u8]) -> (r: Result<Vec<u8>, TransportError>)
    ensures
        match (r, decoded_unary(body@)) {
            (Ok(v), Ok(p)) => v@ == p,
            (Err(TransportError::ResponseError(m)), Err(e)) => m@ == e,
            _ => false,
        },
{
    let len = body.len();
    if len == 0 {
        return Ok(Vec::new());
    }
    let mut offset: usize = 0;
    let mut payload: Option<Vec<u8>> = None;
    while offset < len
        invariant
            len == body@.len(),
            len > 0,
            offset <= len,
            frames_from(body@, 0, None) == frames_from(
                body@,
                offset as int,
                match payload {
                    Some(p) => Some(p@),
                    None => None,
                },
            ),
        decreases len - offset,
    {
        if len - offset < 5 {
            return Err(TransportError::ResponseError(String::from_str(
                "Malformed gRPC frame: incomplete frame header",
            )));
        }
        if body[offset] != 0 {
            return Err(TransportError::ResponseError(String::from_str(
                "Compressed gRPC response is not supported",
            )));
        }
        let b1 = body[offset + 1] as u64;
        let b2 = body[offset + 2] as u64;
        let b3 = body[offset + 3] as u64;
        let b4 = body[offset + 4] as u64;
        let message_len_u64: u64 = b1 * 16777216 + b2 * 65536 + b3 * 256 + b4;
        assert(message_len_u64 == be_u32_value(body@.subrange(offset + 1, offset + 5)));
        let start = offset + 5;
        if ((len - start) as u64) < message_len_u64 {
            return Err(TransportError::ResponseError(String::from_str(
                "Malformed gRPC frame: payload length exceeds available bytes",
            )));
        }
        let message_len = message_len_u64 as usize;
        if payload.is_some() {
            return Err(TransportError::ResponseError(String::from_str(
                "Unary gRPC response contains multiple message frames",
            )));
        }
        let mut message: Vec<u8> = Vec::new();
        let mut k: usize = 0;
        while k < message_len
            invariant
                len == body@.len(),
                start + message_len <= len,
                k <= message_len,
                message@ == body@.subrange(start as int, start + k),
            decreases message_len - k,
        {
            message.push(body[start + k]);
            k = k + 1;
            assert(message@ =~= body@.subrange(start as int, start + k));
        }
        offset = start + message_len;
        payload = Some(message);
    }
    match payload {
        Some(p) => Ok(p),
        None => Ok(Vec::new()),
    }
}


/// The status code a unary response carries: the trailers' `grpc-status`,
/// else the headers', else 0.
pub open spec fn resolved_code(
    trailers: Seq<(Seq<char>, Option<Seq<char>>)>,
    headers: Seq<(Seq<char>, Option<Seq<char>>)>,
) -> i32 {
    match status_code_of(trailers) {
        Some(c) => c,
        None => match status_code_of(headers) {
            Some(c) => c,
            None => 0,
        },
    }
}

/// The status message a unary response carries: the trailers'
/// `grpc-message`, else the headers'.
pub open spec fn resolved_message(
    trailers: Seq<(Seq<char>, Option<Seq<char>>)>,
    headers: Seq<(Seq<char>, Option<Seq<char>>)>,
) -> Option<Seq<char>> {
    match first_header_text(trailers, "grpc-message"@) {
        Some(m) => Some(m),
        None => first_header_text(headers, "grpc-message"@),
    }
}

/// Whether `st` is the status for `code` and `message`: `Success` for code
/// 0, otherwise an error with the code and the message, `"Unknown error"`
/// when there is none.
pub open spec fn is_status_for(st: GrpcStatus, code: i32, message: Option<Seq<char>>) -> bool {
    if code == 0 {
        st is Success
    } else {
        match st {
            GrpcStatus::Error { code: c, message: m } => c == code && m@ == (match message {
                Some(t) => t,
                None => "Unknown error"@,
            }),
            GrpcStatus::Success => false,
        }
    }
}

/// The status of a unary call from its trailers and headers.
pub fn resolve_grpc_status(
    trailers: &Vec<(String, Option<String>)>,
    headers: &Vec<(String, Option<String>)>,
) -> (st: GrpcStatus)
    ensures
        is_status_for(
            st,
            resolved_code(header_entries(trailers@), header_entries(headers@)),
            resolved_message(header_entries(trailers@), header_entries(headers@)),
        ),
{
    let code = match parse_grpc_status(trailers) {
        Some(c) => c,
        None => match parse_grpc_status(headers) {
            Some(c) => c,
            None => 0,
        },
    };
    let message = match parse_grpc_message(trailers) {
        Some(m) => Some(m),
        None => parse_grpc_message(headers),
    };
    if code == 0 {
        GrpcStatus::Success
    } else {
        let text = match message {
            Some(m) => m,
            None => String::from_str("Unknown error"),
        };
        GrpcStatus::Error { code, message: text }
    }
}

/// Unary gRPC response.
#[derive(Debug, Clone)]
pub struct UnaryResponse {
    /// Response body bytes (protobuf wire format).
    pub body: Vec<u8>,
    /// Response metadata (headers and trailers).
    pub metadata: StringMap,
    /// gRPC status.
    pub status: GrpcStatus,
    /// Duration in milliseconds.
    pub duration_ms: u64,
}

/// Assembles the unary response from what the call received: headers,
/// trailers, the raw body and the elapsed time.
pub fn finish_unary_response(
    headers: &Vec<(String, Option<String>)>,
    trailers: &Vec<(String, Option<String>)>,
    data: &[u8],
    duration_ms: u64,
) -> (r: Result<UnaryResponse, TransportError>)
    ensures
        match decoded_unary(data@) {
            Err(e) => r matches Err(TransportError::ResponseError(m)) && m@ == e,
            Ok(p) => match r {
                Ok(u) => {
                    &&& u.body@ == p
                    &&& u.metadata@ == metadata_of(header_entries(headers@)).union_prefer_right(
                        metadata_of(header_entries(trailers@)),
                    )
                    &&& is_status_for(
                        u.status,
                        resolved_code(header_entries(trailers@), header_entries(headers@)),
                        resolved_message(header_entries(trailers@), header_entries(headers@)),
                    )
                    &&& u.duration_ms == duration_ms
                },
                Err(_) => false,
            },
        },
{
    let mut metadata = StringMap::new();
    add_header_entries(&mut metadata, headers);
    add_header_entries(&mut metadata, trailers);
    assert(Map::<Seq<char>, Seq<char>>::empty().union_prefer_right(metadata_of(header_entries(headers@)))
        =~= metadata_of(header_entries(headers@)));
    let body = match decode_grpc_unary_response(data) {
        Ok(b) => b,
        Err(e) => {
            return Err(e);
        },
    };
    let status = resolve_grpc_status(trailers, headers);
    Ok(UnaryResponse { body, metadata, status, duration_ms })
}

/// The HTTP/2 path of a gRPC method: the method with a leading slash.
pub open spec fn method_path_of(method: Seq<char>) -> Seq<char> {
    if has_prefix(method, "/"@) {
        method
    } else {
        "/"@ + method
    }
}

/// The HTTP/2 path of a gRPC method (`Service/Method` or `/Service/Method`).
pub fn grpc_method_path(method: &str) -> (r: String)
    ensures
        r@ == method_path_of(method@),
{
    if str_starts_with(method, "/") {
        owned(method)
    } else {
        String::from_str("/").concat(method)
    }
}

/// What parsing `text` as a URI with `http` gives: the host it names, if
/// any, or the parse error's text.
pub uninterp spec fn spec_uri_parse(text: Seq<char>) -> Result<Option<Seq<char>>, Seq<char>>;

/// Parses `text` as an `http::Uri` and reads its host.
///
/// The contract names the result: `Ok` with the URI's host (if it has one)
/// when `Uri::from_str` accepts `text`, `Err` with the error's display text
/// otherwise. The URI grammar itself is not restated.
#[verifier::external_body]
fn parse_uri_host(text: &str) -> (r: Result<Option<String>, String>)
    ensures
        match (r, spec_uri_parse(text@)) {
            (Ok(Some(h)), Ok(Some(sh))) => h@ == sh,
            (Ok(None), Ok(None)) => true,
            (Err(e), Err(se)) => e@ == se,
            _ => false,
        },
{
    match text.parse::<http::Uri>() {
        Ok(uri) => Ok(uri.host().map(|h| h.to_string())),
        Err(e) => Err(e.to_string()),
    }
}

/// Whether `t` already names an `http` or `https` scheme.
pub open spec fn has_http_scheme(t: Seq<char>) -> bool {
    has_prefix(t, "http://"@) || has_prefix(t, "https://"@)
}

/// The origin an authority override stands for: as written when it names
/// a scheme, else with `http://` (plaintext) or `https://` (TLS) before it.
pub open spec fn origin_text(trimmed_authority: Seq<char>, insecure: bool) -> Seq<char> {
    if has_http_scheme(trimmed_authority) {
        trimmed_authority
    } else if insecure {
        "http://"@ + trimmed_authority
    } else {
        "https://"@ + trimmed_authority
    }
}

/// The text of the error for an authority that does not parse.
pub open spec fn invalid_authority_message(t: Seq<char>, detail: Seq<char>) -> Seq<char> {
    "Invalid authority '"@ + t + "': "@ + detail
}

/// The result of building the origin for an authority override.
pub open spec fn origin_result(authority: Seq<char>, insecure: bool) -> Result<Seq<char>, Seq<char>> {
    let t = trimmed(authority);
    if t.len() == 0 {
        Err("Invalid address: "@ + "Authority override is empty"@)
    } else {
        let o = origin_text(t, insecure);
        match spec_uri_parse(o) {
            Ok(_) => Ok(o),
            Err(d) => Err("Invalid address: "@ + invalid_authority_message(t, d)),
        }
    }
}

/// The origin (`:authority` and TLS server name source) for an authority
/// override, checked to parse as a URI.
pub fn build_origin_from_authority(authority: &str, insecure: bool) -> (r: Result<String, TransportError>)
    ensures
        match (r, origin_result(authority@, insecure)) {
            (Ok(o), Ok(so)) => o@ == so,
            (Err(e), Err(se)) => e is InvalidAddress && e.message() == se,
            _ => false,
        },
{
    let t = trim_str(authority);
    if t.as_str().is_empty() {
        return Err(TransportError::InvalidAddress(String::from_str("Authority override is empty")));
    }
    let origin = if str_starts_with(t.as_str(), "http://") || str_starts_with(t.as_str(), "https://") {
        t.clone()
    } else if insecure {
        String::from_str("http://").concat(t.as_str())
    } else {
        String::from_str("https://").concat(t.as_str())
    };
    match parse_uri_host(origin.as_str()) {
        Ok(_) => Ok(origin),
        Err(d) => {
            let m = String::from_str("Invalid authority '").concat(t.as_str()).concat("': ").concat(d.as_str());
            Err(TransportError::InvalidAddress(m))
        },
    }
}

/// The TLS server name an authority override stands for: the host of its
/// origin.
pub fn extract_server_name_from_authority(authority: &str, insecure: bool) -> (r: Result<String, TransportError>)
    ensures
        match origin_result(authority@, insecure) {
            Err(se) => r matches Err(e) && e is InvalidAddress && e.message() == se,
            Ok(o) => match spec_uri_parse(o) {
                Ok(Some(h)) => r matches Ok(n) && n@ == h,
                _ => r matches Err(e) && e is InvalidAddress && e.message() == "Invalid address: "@
                    + invalid_authority_message(trimmed(authority@), "missing host"@),
            },
        },
{
    let origin = match build_origin_from_authority(authority, insecure) {
        Ok(o) => o,
        Err(e) => {
            return Err(e);
        },
    };
    match parse_uri_host(origin.as_str()) {
        Ok(Some(h)) => Ok(h),
        _ => {
            let t = trim_str(authority);
            let m = String::from_str("Invalid authority '").concat(t.as_str()).concat("': ").concat("missing host");
            Err(TransportError::InvalidAddress(m))
        },
    }
}

/// TLS settings of the `tonic` transport, carried through as they are.
#[verifier::external_type_specification]
#[verifier::external_body]
pub struct ExClientTlsConfig(tonic::transport::ClientTlsConfig);

/// gRPC transport configuration.
#[derive(Debug, Clone)]
pub struct TransportConfig {
    /// Request timeout in milliseconds.
    pub timeout_ms: u64,
    /// TLS settings to use as given, in place of the platform's roots.
    pub tls_config: Option<tonic::transport::ClientTlsConfig>,
    /// Optional authority override for HTTP/2 `:authority` and TLS SNI.
    pub authority: Option<String>,
    /// Whether to use a plaintext connection.
    pub insecure: bool,
}

impl TransportConfig {
    /// The default configuration: a 30 second timeout, no TLS settings of
    /// its own, no authority override, TLS.
    pub fn default() -> (c: Self)
        ensures
            c.timeout_ms == 30000,
            c.tls_config is None,
            c.authority is None,
            !c.insecure,
    {
        TransportConfig { timeout_ms: 30000, tls_config: None, authority: None, insecure: false }
    }
}

/// The endpoint URI for `address`: as written when it names a scheme, else
/// with `http://` (plaintext) or `https://` (TLS) before it.
pub fn endpoint_uri(address: &str, insecure: bool) -> (r: String)
    ensures
        r@ == (if has_http_scheme(address@) {
            address@
        } else if insecure {
            "http://"@ + address@
        } else {
            "https://"@ + address@
        }),
{
    if str_starts_with(address, "http://") || str_starts_with(address, "https://") {
        owned(address)
    } else if insecure {
        String::from_str("http://").concat(address)
    } else {
        String::from_str("https://").concat(address)
    }
}

/// How a connection secures itself.
#[derive(Debug, Clone)]
pub enum TlsPlan {
    /// Plaintext HTTP/2.
    Plaintext,
    /// TLS with the configuration's own settings, with the server name to
    /// present when an authority override gives one.
    Configured { server_name: Option<String> },
    /// TLS with the platform's root certificates, with the server name to
    /// present when an authority override gives one.
    EnabledRoots { server_name: Option<String> },
}

/// Whether `p` is the TLS setup for a configuration with (`own`) or
/// without TLS settings of its own and the plaintext flag `insecure`, the
/// server name being `name`: its own settings win, else plaintext when
/// insecure, else the platform's roots.
pub open spec fn is_tls_plan(p: TlsPlan, own: bool, insecure: bool, name: Option<Seq<char>>) -> bool {
    if own {
        p matches TlsPlan::Configured { server_name } && opt_text(server_name) == name
    } else if insecure {
        p is Plaintext
    } else {
        p matches TlsPlan::EnabledRoots { server_name } && opt_text(server_name) == name
    }
}

/// What a connection needs beyond its endpoint URI: the origin override and
/// the TLS setup.
#[derive(Debug, Clone)]
pub struct AuthorityPlan {
    /// The origin to use for `:authority`, when overridden.
    pub origin: Option<String>,
    /// The TLS setup.
    pub tls: TlsPlan,
}

/// Plans the authority override and TLS setup of a connection.
pub fn plan_authority(config: &TransportConfig) -> (r: Result<AuthorityPlan, TransportError>)
    ensures
        match config.authority {
            None => r matches Ok(p) && p.origin is None && is_tls_plan(
                p.tls,
                config.tls_config is Some,
                config.insecure,
                None,
            ),
            Some(a) => match origin_result(a@, config.insecure) {
                Err(se) => r matches Err(e) && e.message() == se,
                Ok(o) => match spec_uri_parse(o) {
                    Ok(Some(h)) => r matches Ok(p) && p.origin matches Some(po) && po@ == o && is_tls_plan(
                        p.tls,
                        config.tls_config is Some,
                        config.insecure,
                        Some(h),
                    ),
                    _ => r is Err,
                },
            },
        },
{
    match &config.authority {
        None => {
            let tls = if config.tls_config.is_some() {
                TlsPlan::Configured { server_name: None }
            } else if config.insecure {
                TlsPlan::Plaintext
            } else {
                TlsPlan::EnabledRoots { server_name: None }
            };
            Ok(AuthorityPlan { origin: None, tls })
        },
        Some(a) => {
            let server_name = match extract_server_name_from_authority(a.as_str(), config.insecure) {
                Ok(n) => n,
                Err(e) => {
                    return Err(e);
                },
            };
            let origin = match build_origin_from_authority(a.as_str(), config.insecure) {
                Ok(o) => o,
                Err(e) => {
                    return Err(e);
                },
            };
            let tls = if config.tls_config.is_some() {
                TlsPlan::Configured { server_name: Some(server_name) }
            } else if config.insecure {
                TlsPlan::Plaintext
            } else {
                TlsPlan::EnabledRoots { server_name: Some(server_name) }
            };
            Ok(AuthorityPlan { origin: Some(origin), tls })
        },
    }
}

/// A call's status falls back to the response headers: when the trailers
/// carry no readable `grpc-status` and the headers carry a non-zero one,
/// the status resolved from them is an error with that code (a
/// trailers-only error response is not reported as success).
pub proof fn lemma_status_from_headers_when_trailers_lack_it(
    trailers: Seq<(Seq<char>, Option<Seq<char>>)>,
    headers: Seq<(Seq<char>, Option<Seq<char>>)>,
    c: i32,
    st: GrpcStatus,
)
    requires
        status_code_of(trailers) is None,
        status_code_of(headers) == Some(c),
        c != 0,
        is_status_for(st, resolved_code(trailers, headers), resolved_message(trailers, headers)),
    ensures
        st matches GrpcStatus::Error { code, .. } && code == c,
{
}

/// A call is reported as successful only when neither the trailers nor,
/// failing a readable status in them, the headers carry a non-zero
/// `grpc-status`; a readable status in the trailers wins over the headers.
pub proof fn lemma_success_needs_no_error_status(
    trailers: Seq<(Seq<char>, Option<Seq<char>>)>,
    headers: Seq<(Seq<char>, Option<Seq<char>>)>,
    st: GrpcStatus,
)
    requires
        is_status_for(st, resolved_code(trailers, headers), resolved_message(trailers, headers)),
    ensures
        st is Success ==> (status_code_of(trailers) is None || status_code_of(trailers) == Some(0i32)),
        st is Success && status_code_of(trailers) is None ==> (status_code_of(headers) is None
            || status_code_of(headers) == Some(0i32)),
        forall|t: i32|
            #[trigger] status_code_of(trailers) == Some(t) && t != 0 ==> (st matches GrpcStatus::Error {
                code,
                ..
            } && code == t),
{
}

} // verus!
