//! Argument checks that the codec bridge applies before each Go-side call,
//! and the TLS settings it hands to reflection.

use vstd::prelude::*;
use vstd::string::StringExecFns;
use vstd::string::StringSliceAdditionalSpecFns;
use crate::ffi::error::{FfiError, Result};
use crate::text::{contains_seq, str_contains, trim_str, trimmed, owned, bytes_of};

verus! {

/// Reflection TLS configuration, named as the Go side expects.
#[derive(Debug, Clone, Default)]
pub struct ReflectionTlsConfig {
    /// Whether certificate verification is skipped.
    pub insecure: bool,
    /// Client certificate path.
    pub cert_path: Option<String>,
    /// Client private key path.
    pub key_path: Option<String>,
    /// CA certificate path.
    pub ca_path: Option<String>,
}


/// Whether `s` holds a NUL character (which a C string cannot carry).
pub open spec fn has_nul(s: Seq<char>) -> bool {
    contains_seq(s, "\0"@)
}

/// The outcome of checking the arguments of an encode call.
pub open spec fn encode_check_ok(method: Seq<char>, json: Seq<char>) -> bool {
    method.len() > 0 && !has_nul(method) && json.len() > 0 && !has_nul(json)
}

/// Checks the arguments of an encode call: a non-empty method name and a
/// non-empty JSON payload, neither holding a NUL character.
pub fn check_encode_request(method: &str, json_payload: &str) -> (r: Result<()>)
    ensures
        r is Ok <==> encode_check_ok(method@, json_payload@),
        method@.len() == 0 ==> (r matches Err(FfiError::InvalidMethodName { name }) && name@
            == "(空)"@),
        method@.len() > 0 && has_nul(method@) ==> (r matches Err(FfiError::InvalidMethodName {
            name,
        }) && name@ == method@),
        method@.len() > 0 && !has_nul(method@) && json_payload@.len() == 0 ==> (r matches Err(
            FfiError::JsonParseError { json, reason },
        ) && json@.len() == 0 && reason@ == "空 JSON 数据"@),
        method@.len() > 0 && !has_nul(method@) && json_payload@.len() > 0 && has_nul(
            json_payload@,
        ) ==> (r matches Err(FfiError::InvalidUtf8 { bytes }) && bytes@
            == json_payload.spec_bytes()),
{
    if method.is_empty() {
        return Err(FfiError::InvalidMethodName { name: String::from_str("(空)") });
    }
    if str_contains(method, "\0") {
        return Err(FfiError::InvalidMethodName { name: owned(method) });
    }
    if json_payload.is_empty() {
        return Err(FfiError::JsonParseError { json: String::new(), reason: String::from_str("空 JSON 数据") });
    }
    if str_contains(json_payload, "\0") {
        return Err(FfiError::InvalidUtf8 { bytes: bytes_of(json_payload) });
    }
    Ok(())
}

/// Checks the arguments of a decode call: a non-empty method name without
/// NUL, and non-empty wire data.
pub fn check_decode_response(method: &str, wire_data: &[u8]) -> (r: Result<()>)
    ensures
        r is Ok <==> (method@.len() > 0 && wire_data@.len() > 0 && !has_nul(method@)),
        method@.len() == 0 ==> (r matches Err(FfiError::InvalidMethodName { name }) && name@
            == "(空)"@),
        method@.len() > 0 && wire_data@.len() == 0 ==> (r matches Err(FfiError::IoError {
            context,
            reason,
        }) && context@ == "decode_response"@ && reason@ == "空 wire 数据"@),
        method@.len() > 0 && wire_data@.len() > 0 && has_nul(method@) ==> (r matches Err(
            FfiError::InvalidMethodName { name },
        ) && name@ == method@),
{
    if method.is_empty() {
        return Err(FfiError::InvalidMethodName { name: String::from_str("(空)") });
    }
    if wire_data.len() == 0 {
        return Err(FfiError::IoError {
            context: String::from_str("decode_response"),
            reason: String::from_str("空 wire 数据"),
        });
    }
    if str_contains(method, "\0") {
        return Err(FfiError::InvalidMethodName { name: owned(method) });
    }
    Ok(())
}

/// Checks the arguments of loading proto files: at least one proto path.
pub fn check_load_proto_files(proto_paths: &Vec<String>) -> (r: Result<()>)
    ensures
        r is Ok <==> proto_paths@.len() > 0,
        proto_paths@.len() == 0 ==> (r matches Err(FfiError::IoError { context, reason })
            && context@ == "load_proto_files"@ && reason@ == "proto_paths 不能为空"@),
{
    if proto_paths.len() == 0 {
        return Err(FfiError::IoError {
            context: String::from_str("load_proto_files"),
            reason: String::from_str("proto_paths 不能为空"),
        });
    }
    Ok(())
}

/// Checks a text argument of a Go-side call: not blank once trimmed, no NUL
/// character.
fn check_text_argument(value: &str, context: &str, blank_reason: &str) -> (r: Result<()>)
    ensures
        trimmed(value@).len() == 0 ==> (r matches Err(FfiError::IoError { context: c, reason })
            && c@ == context@ && reason@ == blank_reason@),
        trimmed(value@).len() > 0 && has_nul(value@) ==> (r matches Err(FfiError::InvalidUtf8 {
            bytes,
        }) && bytes@ == value.spec_bytes()),
        r is Ok <==> (trimmed(value@).len() > 0 && !has_nul(value@)),
{
    if trim_str(value).as_str().is_empty() {
        return Err(FfiError::IoError { context: String::from_str(context), reason: String::from_str(blank_reason) });
    }
    if str_contains(value, "\0") {
        return Err(FfiError::InvalidUtf8 { bytes: bytes_of(value) });
    }
    Ok(())
}

/// Checks the address of a reflection load: not blank, no NUL character.
pub fn check_load_reflection(address: &str) -> (r: Result<()>)
    ensures
        trimmed(address@).len() == 0 ==> (r matches Err(FfiError::IoError { context, reason })
            && context@ == "load_reflection"@ && reason@ == "address 不能为空"@),
        trimmed(address@).len() > 0 && has_nul(address@) ==> (r matches Err(FfiError::InvalidUtf8 {
            bytes,
        }) && bytes@ == address.spec_bytes()),
        r is Ok <==> (trimmed(address@).len() > 0 && !has_nul(address@)),
{
    check_text_argument(address, "load_reflection", "address 不能为空")
}

/// Checks the service name of a method listing: not blank, no NUL.
pub fn check_list_methods(service_name: &str) -> (r: Result<()>)
    ensures
        trimmed(service_name@).len() == 0 ==> (r matches Err(FfiError::IoError { context, reason })
            && context@ == "list_methods"@ && reason@ == "service_name 不能为空"@),
        trimmed(service_name@).len() > 0 && has_nul(service_name@) ==> (r matches Err(
            FfiError::InvalidUtf8 { bytes },
        ) && bytes@ == service_name.spec_bytes()),
        r is Ok <==> (trimmed(service_name@).len() > 0 && !has_nul(service_name@)),
{
    check_text_argument(service_name, "list_methods", "service_name 不能为空")
}

/// Checks the names of a schema query: neither blank, neither holding NUL.
pub fn check_get_method_input_schema(service_name: &str, method_name: &str) -> (r: Result<()>)
    ensures
        (trimmed(service_name@).len() == 0 || trimmed(method_name@).len() == 0) ==> (r matches Err(
            FfiError::IoError { context, reason },
        ) && context@ == "get_method_input_schema"@ && reason@
            == "service_name 与 method_name 不能为空"@),
        trimmed(service_name@).len() > 0 && trimmed(method_name@).len() > 0 && has_nul(
            service_name@,
        ) ==> (r matches Err(FfiError::InvalidUtf8 { bytes }) && bytes@
            == service_name.spec_bytes()),
        trimmed(service_name@).len() > 0 && trimmed(method_name@).len() > 0 && !has_nul(
            service_name@,
        ) && has_nul(method_name@) ==> (r matches Err(FfiError::InvalidUtf8 { bytes }) && bytes@
            == method_name.spec_bytes()),
        r is Ok <==> (trimmed(service_name@).len() > 0 && trimmed(method_name@).len() > 0
            && !has_nul(service_name@) && !has_nul(method_name@)),
{
    if trim_str(service_name).as_str().is_empty() || trim_str(method_name).as_str().is_empty() {
        return Err(FfiError::IoError {
            context: String::from_str("get_method_input_schema"),
            reason: String::from_str("service_name 与 method_name 不能为空"),
        });
    }
    if str_contains(service_name, "\0") {
        return Err(FfiError::InvalidUtf8 { bytes: bytes_of(service_name) });
    }
    if str_contains(method_name, "\0") {
        return Err(FfiError::InvalidUtf8 { bytes: bytes_of(method_name) });
    }
    Ok(())
}

} // verus!
