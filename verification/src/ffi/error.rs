//! Errors of the Go codec bridge and their texts.

use vstd::prelude::*;
use vstd::string::StringExecFns;
use crate::text::{decimal, joined, string_views, join_strings, push_decimal};

verus! {

/// The `std::str::Utf8Error` type, carried through conversions.
#[verifier::external_type_specification]
#[verifier::external_body]
pub struct ExUtf8Error(std::str::Utf8Error);

/// The `std::io::Error` type, carried through conversions.
#[verifier::external_type_specification]
#[verifier::external_body]
pub struct ExIoError(std::io::Error);

/// The `serde_json::Error` type, carried through conversions.
#[verifier::external_type_specification]
#[verifier::external_body]
pub struct ExJsonError(serde_json::Error);

/// FFI error type.
#[derive(Debug, Clone)]
pub enum FfiError {
    /// The dynamic library was found at none of the paths tried.
    LibraryNotFound { paths: Vec<String> },
    /// The library exists but could not be loaded.
    LibraryLoadFailed { path: String, reason: String },
    /// A symbol is missing from the library.
    SymbolNotFound { name: String },
    /// A Go-side call reported failure.
    FfiCallFailed { function: String, message: String },
    /// Data is not valid UTF-8.
    InvalidUtf8 { bytes: Vec<u8> },
    /// JSON data could not be parsed.
    JsonParseError { json: String, reason: String },
    /// An unexpected null pointer.
    NullPointer { context: String },
    /// A method name that does not have the form `ServiceName/MethodName`.
    InvalidMethodName { name: String },
    /// A released or unknown bridge handle.
    InvalidHandle { handle_id: usize },
    /// A file-system operation failed.
    IoError { context: String, reason: String },
}

/// Result of a codec bridge operation.
pub type Result<T> = std::result::Result<T, FfiError>;

impl FfiError {
    /// The user-facing text of the error.
    pub open spec fn message(&self) -> Seq<char> {
        match self {
            FfiError::LibraryNotFound { paths } => "FFI 库未找到，已尝试路径: "@ + joined(
                string_views(paths@),
                ", "@,
            ),
            FfiError::LibraryLoadFailed { path, reason } => "无法加载 FFI 库 '"@ + path@ + "': "@
                + reason@,
            FfiError::SymbolNotFound { name } => "FFI 符号 '"@ + name@ + "' 未在动态库中找到"@,
            FfiError::FfiCallFailed { function, message } => "FFI 调用 '"@ + function@ + "' 失败: "@
                + message@,
            FfiError::InvalidUtf8 { .. } => "FFI 返回了无效的 UTF-8 数据"@,
            FfiError::JsonParseError { json, reason } => "JSON 解析失败: "@ + reason@ + "，原始数据: "@
                + json@,
            FfiError::NullPointer { context } => "在 '"@ + context@ + "' 中遇到空指针"@,
            FfiError::InvalidMethodName { name } => "无效的方法名 '"@ + name@
                + "', 期望格式: ServiceName/MethodName"@,
            FfiError::InvalidHandle { handle_id } => "无效的桥接句柄 ID: "@ + decimal(
                *handle_id as nat,
            ),
            FfiError::IoError { context, reason } => "IO 错误 ("@ + context@ + "): "@ + reason@,
        }
    }

    /// The user-facing text of the error.
    pub fn to_string(&self) -> (r: String)
        ensures
            r@ == self.message(),
    {
        match self {
            FfiError::LibraryNotFound { paths } => String::from_str("FFI 库未找到，已尝试路径: ").concat(
                join_strings(paths, ", ").as_str(),
            ),
            FfiError::LibraryLoadFailed { path, reason } => String::from_str("无法加载 FFI 库 '").concat(
                path.as_str(),
            ).concat("': ").concat(reason.as_str()),
            FfiError::SymbolNotFound { name } => String::from_str("FFI 符号 '").concat(
                name.as_str(),
            ).concat("' 未在动态库中找到"),
            FfiError::FfiCallFailed { function, message } => String::from_str("FFI 调用 '").concat(
                function.as_str(),
            ).concat("' 失败: ").concat(message.as_str()),
            FfiError::InvalidUtf8 { .. } => String::from_str("FFI 返回了无效的 UTF-8 数据"),
            FfiError::JsonParseError { json, reason } => String::from_str("JSON 解析失败: ").concat(
                reason.as_str(),
            ).concat("，原始数据: ").concat(json.as_str()),
            FfiError::NullPointer { context } => String::from_str("在 '").concat(
                context.as_str(),
            ).concat("' 中遇到空指针"),
            FfiError::InvalidMethodName { name } => String::from_str("无效的方法名 '").concat(
                name.as_str(),
            ).concat("', 期望格式: ServiceName/MethodName"),
            FfiError::InvalidHandle { handle_id } => {
                let mut m = String::from_str("无效的桥接句柄 ID: ");
                push_decimal(&mut m, *handle_id as u64);
                m
            },
            FfiError::IoError { context, reason } => String::from_str("IO 错误 (").concat(
                context.as_str(),
            ).concat("): ").concat(reason.as_str()),
        }
    }

    /// The error for a library that failed to load for `reason`, its path
    /// unknown.
    pub fn load_failed(reason: String) -> (r: FfiError)
        ensures
            r matches FfiError::LibraryLoadFailed { path, reason: m } && path@ == "unknown"@ && m@
                == reason@,
    {
        FfiError::LibraryLoadFailed { path: String::from_str("unknown"), reason }
    }

    /// The error for text that is not UTF-8 or holds a NUL byte: invalid
    /// UTF-8 with no bytes recorded.
    pub fn invalid_utf8() -> (r: FfiError)
        ensures
            r matches FfiError::InvalidUtf8 { bytes } && bytes@.len() == 0,
    {
        FfiError::InvalidUtf8 { bytes: Vec::new() }
    }

    /// The error for a failed I/O operation whose text is `reason`.
    pub fn io_failure(reason: String) -> (r: FfiError)
        ensures
            r matches FfiError::IoError { context, reason: m } && context@ == "IO 操作"@ && m@
                == reason@,
    {
        FfiError::IoError { context: String::from_str("IO 操作"), reason }
    }

    /// The error for JSON that failed to parse with the text `reason`.
    pub fn json_failure(reason: String) -> (r: FfiError)
        ensures
            r matches FfiError::JsonParseError { json, reason: m } && json@.len() == 0 && m@
                == reason@,
    {
        FfiError::JsonParseError { json: String::new(), reason }
    }
}

/// The display text of an I/O error.
///
/// Calls `Display` on `std::io::Error`; the text may come from the
/// operating system, so nothing is stated of it.
#[verifier::external_body]
pub(crate) fn io_error_text(err: &std::io::Error) -> String {
    err.to_string()
}

/// The display text of a `serde_json` error.
///
/// Calls `Display` on `serde_json::Error`; the error is opaque here, so
/// nothing is stated of the text.
#[verifier::external_body]
pub(crate) fn json_error_text(err: &serde_json::Error) -> String {
    err.to_string()
}

impl From<std::str::Utf8Error> for FfiError {
    fn from(_err: std::str::Utf8Error) -> (r: FfiError)
        ensures
            r matches FfiError::InvalidUtf8 { bytes } && bytes@.len() == 0,
    {
        FfiError::invalid_utf8()
    }
}

impl vstd::std_specs::convert::FromSpecImpl<std::str::Utf8Error> for FfiError {
    /// `from` states its result in its own `ensures`; the outside error is
    /// opaque, so no spec function of it can be written here.
    open spec fn obeys_from_spec() -> bool {
        false
    }

    open spec fn from_spec(v: std::str::Utf8Error) -> FfiError {
        vstd::pervasive::arbitrary()
    }
}

impl From<std::io::Error> for FfiError {
    fn from(err: std::io::Error) -> (r: FfiError)
        ensures
            r matches FfiError::IoError { context, reason: _ } && context@ == "IO 操作"@,
    {
        FfiError::io_failure(io_error_text(&err))
    }
}

impl vstd::std_specs::convert::FromSpecImpl<std::io::Error> for FfiError {
    /// `from` states its result in its own `ensures`; the outside error is
    /// opaque, so no spec function of it can be written here.
    open spec fn obeys_from_spec() -> bool {
        false
    }

    open spec fn from_spec(v: std::io::Error) -> FfiError {
        vstd::pervasive::arbitrary()
    }
}

impl From<serde_json::Error> for FfiError {
    fn from(err: serde_json::Error) -> (r: FfiError)
        ensures
            r matches FfiError::JsonParseError { json, reason: _ } && json@.len() == 0,
    {
        FfiError::json_failure(json_error_text(&err))
    }
}

impl vstd::std_specs::convert::FromSpecImpl<serde_json::Error> for FfiError {
    /// `from` states its result in its own `ensures`; the outside error is
    /// opaque, so no spec function of it can be written here.
    open spec fn obeys_from_spec() -> bool {
        false
    }

    open spec fn from_spec(v: serde_json::Error) -> FfiError {
        vstd::pervasive::arbitrary()
    }
}

/// The `libloading::Error` type, carried opaquely.
#[verifier::external_type_specification]
#[verifier::external_body]
pub struct ExLibloadingError(libloading::Error);

/// The text of a library-loading error.
///
/// Matches on `libloading::Error`: for a failed open or symbol lookup it
/// is the debug view of the system's description, otherwise the error's
/// display text. The text comes from the operating system, so nothing is
/// stated of it.
#[verifier::external_body]
fn libloading_error_reason(err: &libloading::Error) -> String {
    match err {
        libloading::Error::DlOpen { desc } => format!("{:?}", desc),
        libloading::Error::DlSym { desc } => format!("{:?}", desc),
        _ => err.to_string(),
    }
}

impl From<libloading::Error> for FfiError {
    fn from(err: libloading::Error) -> (r: FfiError)
        ensures
            r matches FfiError::LibraryLoadFailed { path, reason: _ } && path@ == "unknown"@,
    {
        FfiError::load_failed(libloading_error_reason(&err))
    }
}

impl vstd::std_specs::convert::FromSpecImpl<libloading::Error> for FfiError {
    /// `from` states its result in its own `ensures`; the outside error is
    /// opaque, so no spec function of it can be written here.
    open spec fn obeys_from_spec() -> bool {
        false
    }

    open spec fn from_spec(v: libloading::Error) -> FfiError {
        vstd::pervasive::arbitrary()
    }
}

/// Return code of a successful Go-side call.
pub const FFI_OK: i32 = 0;

/// Generic error return code of a Go-side call.
pub const FFI_ERROR: i32 = -1;

/// Turns a Go-side return code into a result: success for `FFI_OK`,
/// otherwise a call failure of `function` with the text `get_error` gives.
pub fn check_ffi_result<F: FnOnce() -> String>(code: i32, function: &str, get_error: F) -> (r: Result<()>)
    requires
        code != FFI_OK ==> get_error.requires(()),
    ensures
        code == FFI_OK ==> r is Ok,
        code != FFI_OK ==> (r matches Err(FfiError::FfiCallFailed { function: f, message: m }) && f@
            == function@ && get_error.ensures((), m)),
{
    if code == FFI_OK {
        Ok(())
    } else {
        let message = get_error();
        Err(FfiError::FfiCallFailed { function: String::from_str(function), message })
    }
}

} // verus!
