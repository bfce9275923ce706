use grpcui::grpc::metadata::StringMap;
use grpcui::grpc::transport::{
    build_origin_from_authority, decode_grpc_unary_response, encode_grpc_frame,
    extract_server_name_from_authority, plan_authority, GrpcStatus, TlsPlan, TransportConfig, TransportError,
    UnaryResponse,
};

#[test]
fn test_status_ok() {
    let status = GrpcStatus::Success;
    assert!(status.is_ok());
    assert_eq!(status.code(), 0);
    assert_eq!(status.as_str(), "OK");
}

#[test]
fn test_status_error() {
    let status = GrpcStatus::Error { code: 14, message: "Unavailable".to_string() };
    assert!(!status.is_ok());
    assert_eq!(status.code(), 14);
    assert_eq!(status.as_str(), "ERROR");
}

#[test]
fn test_status_error_various_codes() {
    let codes = vec![
        (1, "Canceled"),
        (2, "Unknown"),
        (3, "InvalidArgument"),
        (4, "DeadlineExceeded"),
        (5, "NotFound"),
        (6, "AlreadyExists"),
        (7, "PermissionDenied"),
        (8, "ResourceExhausted"),
        (9, "FailedPrecondition"),
        (10, "Aborted"),
        (11, "OutOfRange"),
        (12, "Unimplemented"),
        (13, "Internal"),
        (14, "Unavailable"),
        (15, "DataLoss"),
        (16, "Unauthenticated"),
    ];

    for (code, message) in codes {
        let status = GrpcStatus::Error { code, message: message.to_string() };
        assert!(!status.is_ok());
        assert_eq!(status.code(), code);
        assert_eq!(status.as_str(), "ERROR");
    }
}

#[test]
fn test_status_clone() {
    let status = GrpcStatus::Error { code: 5, message: "Not found".to_string() };
    let cloned = status.clone();
    assert_eq!(status, cloned);
}

#[test]
fn test_status_equality() {
    let status1 = GrpcStatus::Success;
    let status2 = GrpcStatus::Success;
    let status3 = GrpcStatus::Error { code: 14, message: "Unavailable".to_string() };

    assert_eq!(status1, status2);
    assert_ne!(status1, status3);
}

#[test]
fn transport_test_transport_config_default() {
    let config = TransportConfig::default();
    assert_eq!(config.timeout_ms, 30_000);
    assert!(config.tls_config.is_none());
    assert!(config.authority.is_none());
    assert!(!config.insecure);
}

#[test]
fn test_transport_config_with_tls() {
    let config = TransportConfig { timeout_ms: 30_000, tls_config: None, authority: None, insecure: false };
    assert!(config.tls_config.is_none());
}

#[test]
fn test_transport_config_with_timeout() {
    let config = TransportConfig { timeout_ms: 60_000, tls_config: None, authority: None, insecure: false };
    assert_eq!(config.timeout_ms, 60_000);
}

#[test]
fn test_transport_config_insecure() {
    let config = TransportConfig { timeout_ms: 30_000, tls_config: None, authority: None, insecure: true };
    assert!(config.insecure);
}

#[test]
fn transport_test_transport_config_clone() {
    let config = TransportConfig::default();
    let cloned = config.clone();
    assert_eq!(config.timeout_ms, cloned.timeout_ms);
    assert_eq!(config.insecure, cloned.insecure);
}

#[test]
fn test_transport_error_display_invalid_address() {
    let err = TransportError::InvalidAddress("bad address".to_string());
    assert_eq!(err.to_string(), "Invalid address: bad address");
}

#[test]
fn test_transport_error_display_connection_failed() {
    let err = TransportError::ConnectionFailed("connection refused".to_string());
    assert_eq!(err.to_string(), "Connection failed: connection refused");
}

#[test]
fn test_transport_error_display_tls_error() {
    let err = TransportError::TlsError("cert invalid".to_string());
    assert_eq!(err.to_string(), "TLS error: cert invalid");
}

#[test]
fn test_transport_error_display_request_error() {
    let err = TransportError::RequestError("bad request".to_string());
    assert_eq!(err.to_string(), "Request error: bad request");
}

#[test]
fn test_transport_error_display_response_error() {
    let err = TransportError::ResponseError("server error".to_string());
    assert_eq!(err.to_string(), "Response error: server error");
}

#[test]
fn test_transport_error_display_timeout() {
    let err = TransportError::Timeout;
    assert_eq!(err.to_string(), "Request timed out");
}

#[test]
fn test_transport_error_clone() {
    let err = TransportError::ConnectionFailed("test".to_string());
    let cloned = err.clone();
    assert_eq!(err.to_string(), cloned.to_string());
}

#[test]
fn transport_test_unary_response_creation() {
    let mut metadata = StringMap::new();
    metadata.insert("content-type".to_string(), "application/grpc".to_string());

    let response = UnaryResponse {
        body: b"test data".to_vec(),
        metadata,
        status: GrpcStatus::Success,
        duration_ms: 42,
    };

    assert_eq!(response.body, b"test data".to_vec());
    assert_eq!(response.duration_ms, 42);
    assert!(response.status.is_ok());
    assert_eq!(response.metadata.get("content-type"), Some(&"application/grpc".to_string()));
}

#[test]
fn transport_test_unary_response_empty_body() {
    let response = UnaryResponse {
        body: Vec::new(),
        metadata: StringMap::new(),
        status: GrpcStatus::Success,
        duration_ms: 0,
    };

    assert!(response.body.is_empty());
    assert_eq!(response.duration_ms, 0);
}

#[test]
fn transport_test_unary_response_clone() {
    let response = UnaryResponse {
        body: b"data".to_vec(),
        metadata: StringMap::new(),
        status: GrpcStatus::Success,
        duration_ms: 10,
    };
    let cloned = response.clone();
    assert_eq!(response.body, cloned.body);
    assert_eq!(response.duration_ms, cloned.duration_ms);
}

#[test]
fn transport_test_transport_error_display_all_variants() {
    let err = TransportError::InvalidAddress("bad://address".to_string());
    assert!(err.to_string().contains("Invalid address"));
    assert!(err.to_string().contains("bad://address"));

    let err = TransportError::ConnectionFailed("connection refused".to_string());
    assert!(err.to_string().contains("Connection failed"));
    assert!(err.to_string().contains("connection refused"));

    let err = TransportError::TlsError("invalid cert".to_string());
    assert!(err.to_string().contains("TLS error"));
    assert!(err.to_string().contains("invalid cert"));

    let err = TransportError::RequestError("bad request".to_string());
    assert!(err.to_string().contains("Request error"));
    assert!(err.to_string().contains("bad request"));

    let err = TransportError::ResponseError("server error".to_string());
    assert!(err.to_string().contains("Response error"));
    assert!(err.to_string().contains("server error"));

    let err = TransportError::Timeout;
    assert!(err.to_string().contains("Request timed out"));
}

#[test]
fn transport_test_transport_error_clone_all_variants() {
    let errors = vec![
        TransportError::InvalidAddress("test".to_string()),
        TransportError::ConnectionFailed("test".to_string()),
        TransportError::TlsError("test".to_string()),
        TransportError::RequestError("test".to_string()),
        TransportError::ResponseError("test".to_string()),
        TransportError::Timeout,
    ];

    for err in errors {
        let cloned = err.clone();
        assert_eq!(err.to_string(), cloned.to_string());
    }
}

#[test]
fn transport_test_grpc_status_edge_cases() {
    let status = GrpcStatus::Error { code: i32::MAX, message: "Max code".to_string() };
    assert_eq!(status.code(), i32::MAX);

    let status = GrpcStatus::Error { code: i32::MIN, message: "Min code".to_string() };
    assert_eq!(status.code(), i32::MIN);

    let status = GrpcStatus::Error { code: -1, message: "Negative".to_string() };
    assert_eq!(status.code(), -1);
}

#[test]
fn transport_test_grpc_status_empty_message() {
    let status = GrpcStatus::Error { code: 1, message: "".to_string() };
    assert_eq!(status.as_str(), "ERROR");
    assert!(!status.is_ok());
}

#[test]
fn transport_test_transport_config_custom_values() {
    let config = TransportConfig { timeout_ms: 500, tls_config: None, authority: None, insecure: true };
    assert_eq!(config.timeout_ms, 500);
    assert!(config.insecure);
}

#[test]
fn test_build_origin_from_authority_for_tls() {
    let origin = build_origin_from_authority("api.example.com", false)
        .expect("TLS 场景应能构建 https origin");
    assert_eq!(
        origin.parse::<http::Uri>().unwrap(),
        "https://api.example.com".parse::<http::Uri>().unwrap()
    );
}

#[test]
fn test_build_origin_from_authority_for_plaintext() {
    let origin = build_origin_from_authority("127.0.0.1:30080", true)
        .expect("明文场景应能构建 http origin");
    assert_eq!(
        origin.parse::<http::Uri>().unwrap(),
        "http://127.0.0.1:30080".parse::<http::Uri>().unwrap()
    );
}

#[test]
fn test_extract_server_name_from_authority_strips_port() {
    let server_name = extract_server_name_from_authority("nona-sit.ngnet.com.cn:31443", false)
        .expect("应提取域名作为 SNI server name");
    assert_eq!(server_name, "nona-sit.ngnet.com.cn");
}

#[test]
fn test_extract_server_name_from_authority_keeps_host_only() {
    let server_name = extract_server_name_from_authority("https://api.example.com:8443", false)
        .expect("带 scheme 的 authority 也应可解析");
    assert_eq!(server_name, "api.example.com");
}

#[test]
fn transport_test_unary_response_with_large_body() {
    let large_body = vec![0u8; 1024 * 1024];
    let response = UnaryResponse {
        body: large_body.clone(),
        metadata: StringMap::new(),
        status: GrpcStatus::Success,
        duration_ms: 100,
    };
    assert_eq!(response.body.len(), 1024 * 1024);
}

#[test]
fn test_unary_response_with_metadata() {
    let mut metadata = StringMap::new();
    metadata.insert("grpc-status".to_string(), "0".to_string());
    metadata.insert("content-type".to_string(), "application/grpc".to_string());
    metadata.insert("custom-header".to_string(), "custom-value".to_string());

    let response = UnaryResponse {
        body: b"test".to_vec(),
        metadata,
        status: GrpcStatus::Success,
        duration_ms: 10,
    };

    assert_eq!(response.metadata.get("grpc-status"), Some(&"0".to_string()));
    assert_eq!(response.metadata.get("custom-header"), Some(&"custom-value".to_string()));
}

#[test]
fn test_unary_response_error_status() {
    let response = UnaryResponse {
        body: b"error details".to_vec(),
        metadata: StringMap::new(),
        status: GrpcStatus::Error { code: 14, message: "Unavailable".to_string() },
        duration_ms: 5000,
    };
    assert!(!response.status.is_ok());
    assert_eq!(response.status.code(), 14);
}

#[test]
fn test_encode_grpc_frame_wraps_payload() {
    let payload = b"abc";
    let framed = encode_grpc_frame(payload).expect("encode_grpc_frame should succeed");

    assert_eq!(framed.len(), payload.len() + 5);
    assert_eq!(framed[0], 0);
    assert_eq!(&framed[1..5], &[0, 0, 0, 3]);
    assert_eq!(&framed[5..], payload);
}

#[test]
fn test_decode_grpc_unary_response_extracts_payload() {
    let framed: &[u8] = &[0, 0, 0, 0, 3, b'a', b'b', b'c'];
    let decoded = decode_grpc_unary_response(framed)
        .expect("decode_grpc_unary_response should succeed");
    assert_eq!(decoded, b"abc".to_vec());
}

#[test]
fn test_decode_grpc_unary_response_rejects_incomplete_header() {
    let framed: &[u8] = &[0, 0, 0, 0];
    let err = decode_grpc_unary_response(framed).expect_err("expected malformed frame header error");
    assert!(err.to_string().contains("Malformed gRPC frame"));
}

#[test]
fn test_decode_grpc_unary_response_rejects_compressed_frame() {
    let framed: &[u8] = &[1, 0, 0, 0, 0];
    let err = decode_grpc_unary_response(framed)
        .expect_err("expected compressed frame unsupported error");
    assert!(err.to_string().contains("Compressed gRPC response is not supported"));
}

#[test]
fn connection_plan_follows_tls_settings() {
    let plain = TransportConfig { timeout_ms: 1_000, tls_config: None, authority: None, insecure: true };
    let p = plan_authority(&plain).unwrap();
    assert!(p.origin.is_none());
    assert!(matches!(p.tls, TlsPlan::Plaintext));

    let roots = TransportConfig {
        timeout_ms: 1_000,
        tls_config: None,
        authority: Some("api.example.com".to_string()),
        insecure: false,
    };
    let p = plan_authority(&roots).unwrap();
    assert_eq!(p.origin.as_deref(), Some("https://api.example.com"));
    match p.tls {
        TlsPlan::EnabledRoots { server_name } => assert_eq!(server_name.as_deref(), Some("api.example.com")),
        other => panic!("unexpected plan {:?}", other),
    }

    let own = TransportConfig {
        timeout_ms: 1_000,
        tls_config: Some(tonic::transport::ClientTlsConfig::new()),
        authority: None,
        insecure: true,
    };
    let p = plan_authority(&own).unwrap();
    assert!(matches!(p.tls, TlsPlan::Configured { server_name: None }));
}
