use std::time::Duration;

use grpcui::grpc::metadata::{headers_to_metadata, StringMap};
use grpcui::grpc::transport::{grpc_method_path, GrpcStatus, TransportConfig, TransportError, UnaryResponse};
use http::{HeaderMap, HeaderValue};

/// The header pairs of `headers`, each value as text when it is valid text.
fn header_pairs(headers: &HeaderMap) -> Vec<(String, Option<String>)> {
    headers
        .iter()
        .map(|(k, v)| (k.as_str().to_string(), v.to_str().ok().map(|s| s.to_string())))
        .collect()
}

#[test]
fn test_grpc_status_ok() {
    let status = GrpcStatus::Success;
    assert!(status.is_ok());
    assert_eq!(status.code(), 0);
    assert_eq!(status.as_str(), "OK");
}

#[test]
fn test_grpc_status_error() {
    let status = GrpcStatus::Error { code: 14, message: "Unavailable".to_string() };
    assert!(!status.is_ok());
    assert_eq!(status.code(), 14);
    assert_eq!(status.as_str(), "ERROR");
}

#[test]
fn test_grpc_status_all_codes() {
    let codes = vec![
        (0, "OK"),
        (1, "Canceled"),
        (2, "Unknown"),
        (3, "InvalidArgument"),
        (4, "DeadlineExceeded"),
        (5, "NotFound"),
        (6, "AlreadyExists"),
        (7, "PermissionDenied"),
        (8, "ResourceExhausted"),
        (9, "FailedPrecondition"),
        (10, "Aborted"),
        (11, "OutOfRange"),
        (12, "Unimplemented"),
        (13, "Internal"),
        (14, "Unavailable"),
        (15, "DataLoss"),
        (16, "Unauthenticated"),
    ];

    for (code, message) in codes {
        let status = if code == 0 {
            GrpcStatus::Success
        } else {
            GrpcStatus::Error { code, message: message.to_string() }
        };

        assert_eq!(status.code(), code);
        if code == 0 {
            assert!(status.is_ok());
        } else {
            assert!(!status.is_ok());
        }
    }
}

#[test]
fn grpc_unary_test_test_grpc_status_edge_cases() {
    let status = GrpcStatus::Error { code: i32::MAX, message: "Max code".to_string() };
    assert_eq!(status.code(), i32::MAX);

    let status = GrpcStatus::Error { code: i32::MIN, message: "Min code".to_string() };
    assert_eq!(status.code(), i32::MIN);

    let status = GrpcStatus::Error { code: -1, message: "Negative".to_string() };
    assert_eq!(status.code(), -1);
}

#[test]
fn grpc_unary_test_test_grpc_status_empty_message() {
    let status = GrpcStatus::Error { code: 1, message: "".to_string() };
    assert_eq!(status.as_str(), "ERROR");
    assert!(!status.is_ok());
}

#[test]
fn test_grpc_status_clone() {
    let status = GrpcStatus::Error { code: 5, message: "Not found".to_string() };
    let cloned = status.clone();
    assert_eq!(status, cloned);
}

#[test]
fn test_grpc_status_equality() {
    let status1 = GrpcStatus::Success;
    let status2 = GrpcStatus::Success;
    let status3 = GrpcStatus::Error { code: 14, message: "Unavailable".to_string() };

    assert_eq!(status1, status2);
    assert_ne!(status1, status3);
}

#[test]
fn grpc_unary_test_test_transport_error_display_all_variants() {
    let err = TransportError::InvalidAddress("bad://address".to_string());
    assert!(err.to_string().contains("Invalid address"));
    assert!(err.to_string().contains("bad://address"));

    let err = TransportError::ConnectionFailed("connection refused".to_string());
    assert!(err.to_string().contains("Connection failed"));
    assert!(err.to_string().contains("connection refused"));

    let err = TransportError::TlsError("invalid cert".to_string());
    assert!(err.to_string().contains("TLS error"));
    assert!(err.to_string().contains("invalid cert"));

    let err = TransportError::RequestError("bad request".to_string());
    assert!(err.to_string().contains("Request error"));
    assert!(err.to_string().contains("bad request"));

    let err = TransportError::ResponseError("server error".to_string());
    assert!(err.to_string().contains("Response error"));
    assert!(err.to_string().contains("server error"));

    let err = TransportError::Timeout;
    assert!(err.to_string().contains("Request timed out"));
}

#[test]
fn grpc_unary_test_test_transport_error_clone_all_variants() {
    let errors = vec![
        TransportError::InvalidAddress("test".to_string()),
        TransportError::ConnectionFailed("test".to_string()),
        TransportError::TlsError("test".to_string()),
        TransportError::RequestError("test".to_string()),
        TransportError::ResponseError("test".to_string()),
        TransportError::Timeout,
    ];

    for err in errors {
        let cloned = err.clone();
        assert_eq!(err.to_string(), cloned.to_string());
    }
}

#[test]
fn grpc_unary_test_test_transport_config_default() {
    let config = TransportConfig::default();
    assert_eq!(config.timeout_ms, 30_000);
    assert!(!config.insecure);
}

#[test]
fn grpc_unary_test_test_transport_config_custom_values() {
    let config = TransportConfig { timeout_ms: 60_000, tls_config: None, authority: None, insecure: true };
    assert_eq!(config.timeout_ms, 60_000);
    assert!(config.insecure);
}

#[test]
fn test_transport_config_custom_timeout() {
    let config = TransportConfig { timeout_ms: 500, tls_config: None, authority: None, insecure: true };
    assert_eq!(config.timeout_ms, 500);
}

#[test]
fn grpc_unary_test_test_transport_config_clone() {
    let config = TransportConfig::default();
    let cloned = config.clone();
    assert_eq!(config.timeout_ms, cloned.timeout_ms);
    assert_eq!(config.insecure, cloned.insecure);
}

#[test]
fn grpc_unary_test_test_unary_response_creation() {
    let mut metadata = StringMap::new();
    metadata.insert("grpc-status".to_string(), "0".to_string());

    let response = UnaryResponse {
        body: b"test response".to_vec(),
        metadata,
        status: GrpcStatus::Success,
        duration_ms: 42,
    };

    assert_eq!(response.body, b"test response".to_vec());
    assert_eq!(response.duration_ms, 42);
    assert!(response.status.is_ok());
    assert_eq!(response.metadata.get("grpc-status"), Some(&"0".to_string()));
}

#[test]
fn test_unary_response_error() {
    let response = UnaryResponse {
        body: b"error details".to_vec(),
        metadata: StringMap::new(),
        status: GrpcStatus::Error { code: 14, message: "Service unavailable".to_string() },
        duration_ms: 1000,
    };

    assert!(!response.status.is_ok());
    assert_eq!(response.status.code(), 14);
}

#[test]
fn grpc_unary_test_test_unary_response_empty_body() {
    let response = UnaryResponse {
        body: Vec::new(),
        metadata: StringMap::new(),
        status: GrpcStatus::Success,
        duration_ms: 0,
    };

    assert!(response.body.is_empty());
    assert_eq!(response.duration_ms, 0);
}

#[test]
fn grpc_unary_test_test_unary_response_clone() {
    let mut metadata = StringMap::new();
    metadata.insert("key".to_string(), "value".to_string());

    let response = UnaryResponse {
        body: b"data".to_vec(),
        metadata,
        status: GrpcStatus::Success,
        duration_ms: 10,
    };

    let cloned = response.clone();
    assert_eq!(response.body, cloned.body);
    assert_eq!(response.duration_ms, cloned.duration_ms);
    assert_eq!(response.metadata, cloned.metadata);
}

#[test]
fn grpc_unary_test_test_unary_response_with_large_body() {
    let large_body = vec![0u8; 1024 * 1024];
    let response = UnaryResponse {
        body: large_body.clone(),
        metadata: StringMap::new(),
        status: GrpcStatus::Success,
        duration_ms: 100,
    };
    assert_eq!(response.body.len(), 1024 * 1024);
}

#[test]
fn test_unary_response_large_metadata() {
    let mut metadata = StringMap::new();
    for i in 0..100 {
        metadata.insert(format!("key{}", i), format!("value{}", i));
    }

    let response = UnaryResponse {
        body: b"test".to_vec(),
        metadata,
        status: GrpcStatus::Success,
        duration_ms: 0,
    };

    assert_eq!(response.metadata.len(), 100);
    assert_eq!(response.metadata.get("key50"), Some(&"value50".to_string()));
}

#[test]
fn test_headers_to_metadata_conversion() {
    let mut headers = HeaderMap::new();
    headers.insert("content-type", HeaderValue::from_static("application/grpc"));
    headers.insert("grpc-status", HeaderValue::from_static("0"));
    headers.insert("custom-header", HeaderValue::from_static("custom-value"));

    let metadata = headers_to_metadata(&header_pairs(&headers));

    assert_eq!(metadata.get("content-type"), Some(&"application/grpc".to_string()));
    assert_eq!(metadata.get("grpc-status"), Some(&"0".to_string()));
    assert_eq!(metadata.get("custom-header"), Some(&"custom-value".to_string()));
}

#[test]
fn test_headers_to_metadata_empty() {
    let headers = HeaderMap::new();
    let metadata = headers_to_metadata(&header_pairs(&headers));
    assert!(metadata.is_empty());
}

#[test]
fn test_headers_to_metadata_with_invalid_utf8() {
    let mut headers = HeaderMap::new();
    headers.insert("content-type", HeaderValue::from_static("application/grpc"));

    let metadata = headers_to_metadata(&header_pairs(&headers));
    assert_eq!(metadata.len(), 1);
}

#[test]
fn test_method_path_formats() {
    let paths = vec![
        ("/Service/Method", "/Service/Method"),
        ("Service/Method", "/Service/Method"),
        ("/myapp.Greeter/SayHello", "/myapp.Greeter/SayHello"),
        ("myapp.Greeter/SayHello", "/myapp.Greeter/SayHello"),
    ];

    for (input, expected) in paths {
        let normalized = grpc_method_path(input);
        assert_eq!(normalized, expected);
    }
}

#[test]
fn test_grpc_status_large_code() {
    let status = GrpcStatus::Error { code: 999999, message: "Custom error".to_string() };
    assert_eq!(status.code(), 999999);
    assert!(!status.is_ok());
}

#[test]
fn test_grpc_status_negative_code() {
    let status = GrpcStatus::Error { code: -1, message: "Negative code".to_string() };
    assert_eq!(status.code(), -1);
    assert!(!status.is_ok());
}

#[test]
fn test_unary_response_large_body() {
    let large_body = vec![0u8; 10 * 1024 * 1024];
    let response = UnaryResponse {
        body: large_body.clone(),
        metadata: StringMap::new(),
        status: GrpcStatus::Success,
        duration_ms: 0,
    };

    assert_eq!(response.body.len(), large_body.len());
}

#[test]
fn grpc_unary_test_test_tls_config_insecure() {
    let config = TransportConfig { insecure: true, ..TransportConfig::default() };
    assert!(config.insecure);
}

#[test]
fn test_tls_config_secure_by_default() {
    let config = TransportConfig::default();
    assert!(!config.insecure);
}

#[test]
fn test_transport_timeout_configuration() {
    let config = TransportConfig { timeout_ms: 100, tls_config: None, authority: None, insecure: true };
    assert_eq!(config.timeout_ms, 100);
}

#[test]
fn test_duration_edge_cases() {
    let zero = Duration::from_secs(0);
    assert_eq!(zero.as_secs(), 0);

    let large = Duration::from_secs(u64::MAX);
    assert_eq!(large.as_secs(), u64::MAX);

    let millis = Duration::from_millis(1500);
    assert_eq!(millis.as_millis(), 1500);
}
