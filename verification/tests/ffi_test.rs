use grpcui::ffi::error::FfiError;

#[test]
fn test_empty_method_name() {
    let err = FfiError::InvalidMethodName { name: "".to_string() };
    assert!(err.to_string().contains("无效的方法名"));
}

#[test]
fn test_error_messages() {
    let err1 = FfiError::LibraryNotFound { paths: vec!["/test/path".to_string()] };
    assert!(err1.to_string().contains("FFI 库未找到"));

    let err2 = FfiError::SymbolNotFound { name: "test_symbol".to_string() };
    assert!(err2.to_string().contains("test_symbol"));

    let err3 = FfiError::NullPointer { context: "test".to_string() };
    assert!(err3.to_string().contains("空指针"));
}

#[test]
fn test_ffi_error_library_load_failed() {
    let err = FfiError::LibraryLoadFailed {
        path: "/nonexistent/lib.so".to_string(),
        reason: "file not found".to_string(),
    };
    let msg = err.to_string();
    assert!(msg.contains("无法加载 FFI 库"));
    assert!(msg.contains("file not found"));
}

#[test]
fn test_ffi_error_ffi_call_failed() {
    let err = FfiError::FfiCallFailed {
        function: "encode_request".to_string(),
        message: "proto not loaded".to_string(),
    };
    let msg = err.to_string();
    assert!(msg.contains("FFI 调用 'encode_request' 失败"));
    assert!(msg.contains("proto not loaded"));
}

#[test]
fn test_ffi_error_invalid_utf8() {
    let err = FfiError::InvalidUtf8 { bytes: vec![0x80, 0x81] };
    assert!(err.to_string().contains("无效的 UTF-8 数据"));
}

#[test]
fn test_ffi_error_json_parse_error() {
    let err = FfiError::JsonParseError {
        json: "{invalid}".to_string(),
        reason: "expected colon".to_string(),
    };
    let msg = err.to_string();
    assert!(msg.contains("JSON 解析失败"));
    assert!(msg.contains("expected colon"));
}

#[test]
fn test_ffi_error_invalid_handle() {
    let err = FfiError::InvalidHandle { handle_id: 42 };
    assert!(err.to_string().contains("无效的桥接句柄 ID: 42"));
}

#[test]
fn test_ffi_error_io_error() {
    let err = FfiError::IoError {
        context: "read file".to_string(),
        reason: "permission denied".to_string(),
    };
    let msg = err.to_string();
    assert!(msg.contains("IO 错误 (read file)"));
    assert!(msg.contains("permission denied"));
}

#[test]
fn test_libloading_error_conversion() {
    let lib_err = libloading::Error::DlOpenUnknown;
    let ffi_error: FfiError = lib_err.into();
    match ffi_error {
        FfiError::LibraryLoadFailed { .. } => {}
        _ => panic!("Expected LibraryLoadFailed error"),
    }
}

#[test]
fn test_utf8_error_conversion() {
    let utf8_bytes = vec![0x80_u8, 0x81_u8];
    let utf8_err = std::str::from_utf8(&utf8_bytes).unwrap_err();
    let ffi_error: FfiError = utf8_err.into();
    match ffi_error {
        FfiError::InvalidUtf8 { .. } => {}
        _ => panic!("Expected InvalidUtf8 error"),
    }
}

#[test]
fn test_serde_json_error_conversion() {
    let json_err = serde_json::from_str::<serde_json::Value>("{invalid}").unwrap_err();
    let ffi_error: FfiError = json_err.into();
    match ffi_error {
        FfiError::JsonParseError { reason, .. } => {
            assert!(!reason.is_empty());
        }
        _ => panic!("Expected JsonParseError"),
    }
}

#[test]
fn test_io_error_conversion() {
    let io_err = std::io::Error::new(std::io::ErrorKind::NotFound, "file missing");
    let ffi_error: FfiError = io_err.into();
    match ffi_error {
        FfiError::IoError { reason, .. } => {
            assert!(reason.contains("file missing"));
        }
        _ => panic!("Expected IoError"),
    }
}

#[test]
fn test_ffi_error_display_messages() {
    let err = FfiError::FfiCallFailed {
        function: "test_function".to_string(),
        message: "test message".to_string(),
    };
    let msg = err.to_string();
    assert!(msg.contains("test_function"));
    assert!(msg.contains("test message"));

    let err = FfiError::InvalidMethodName { name: "bad/method".to_string() };
    assert!(err.to_string().contains("bad/method"));

    let err = FfiError::InvalidHandle { handle_id: 42 };
    assert!(err.to_string().contains("42"));
}

#[test]
fn test_ffi_error_from_conversions() {
    let lib_err = libloading::Error::DlOpenUnknown;
    let ffi_err: FfiError = lib_err.into();
    assert!(matches!(ffi_err, FfiError::LibraryLoadFailed { .. }));

    let utf8_bytes = vec![0xff_u8, 0xfe_u8];
    let utf8_err = std::str::from_utf8(&utf8_bytes).unwrap_err();
    let ffi_err: FfiError = utf8_err.into();
    assert!(matches!(ffi_err, FfiError::InvalidUtf8 { .. }));

    let io_err = std::io::Error::new(std::io::ErrorKind::NotFound, "file not found");
    let ffi_err: FfiError = io_err.into();
    assert!(matches!(ffi_err, FfiError::IoError { .. }));
}

#[test]
fn test_empty_method_name_validation() {
    let err = FfiError::InvalidMethodName { name: "".to_string() };
    let msg = err.to_string();
    assert!(msg.contains("无效的方法名"));
}

#[test]
fn test_json_parse_error_details() {
    let err = FfiError::JsonParseError {
        json: "{invalid}".to_string(),
        reason: "expected colon".to_string(),
    };
    let msg = err.to_string();
    assert!(msg.contains("JSON 解析失败"));
    assert!(msg.contains("expected colon"));
    assert!(msg.contains("{invalid}"));
}
