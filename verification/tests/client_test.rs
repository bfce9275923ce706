use grpcui::ffi::error::FfiError;
use grpcui::grpc::client::{
    build_transport_config, GrpcError, ResponseStatus, StreamResponse, TlsConfig, UnaryResponse,
};
use grpcui::grpc::metadata::StringMap;
use grpcui::grpc::transport::TransportError;

#[test]
fn test_build_transport_config_defaults_to_insecure_for_plaintext_targets() {
    let config = build_transport_config(None, None);
    assert!(config.insecure);
}

#[test]
fn test_build_transport_config_honors_explicit_tls_setting() {
    let config = build_transport_config(
        Some(TlsConfig {
            insecure: false,
            ca_cert_path: None,
            client_cert_path: None,
            client_key_path: None,
        }),
        None,
    );

    assert!(!config.insecure);
}

#[test]
fn test_response_status_ok() {
    let status = ResponseStatus { code: 0, message: "OK".to_string(), status: "OK".to_string() };
    assert_eq!(status.code, 0);
    assert_eq!(status.status, "OK");
    assert_eq!(status.message, "OK");
}

#[test]
fn test_response_status_error() {
    let status = ResponseStatus {
        code: 14,
        message: "Unavailable".to_string(),
        status: "ERROR".to_string(),
    };
    assert_eq!(status.code, 14);
    assert_eq!(status.status, "ERROR");
    assert_eq!(status.message, "Unavailable");
}

#[test]
fn test_grpc_error_display() {
    let err = GrpcError::NotConnected;
    assert_eq!(err.to_string(), "Not connected to gRPC server");

    let err = GrpcError::Timeout;
    assert_eq!(err.to_string(), "Request timed out");

    let err = GrpcError::Encoding("invalid json".to_string());
    assert_eq!(err.to_string(), "Encoding error: invalid json");

    let err = GrpcError::Decoding("corrupted data".to_string());
    assert_eq!(err.to_string(), "Decoding error: corrupted data");

    let err = GrpcError::InvalidMethod("bad/method/name".to_string());
    assert_eq!(err.to_string(), "Invalid method: bad/method/name");
}

#[test]
fn test_grpc_error_from_transport_error() {
    let transport_err = TransportError::ConnectionFailed("refused".to_string());
    let grpc_err: GrpcError = transport_err.into();
    match grpc_err {
        GrpcError::Transport(TransportError::ConnectionFailed(msg)) => {
            assert_eq!(msg, "refused");
        }
        _ => panic!("Expected Transport error"),
    }
}

#[test]
fn test_grpc_error_from_transport_timeout() {
    let transport_err = TransportError::Timeout;
    let grpc_err: GrpcError = transport_err.into();
    match grpc_err {
        GrpcError::Timeout => {}
        _ => panic!("Expected Timeout error, got {:?}", grpc_err),
    }
}

#[test]
fn test_grpc_error_from_ffi_error_encode() {
    let ffi_err = FfiError::FfiCallFailed {
        function: "encode_request_json_to_wire".to_string(),
        message: "proto not found".to_string(),
    };
    let grpc_err: GrpcError = ffi_err.into();
    match grpc_err {
        GrpcError::Encoding(msg) => assert_eq!(msg, "proto not found"),
        _ => panic!("Expected Encoding error, got {:?}", grpc_err),
    }
}

#[test]
fn test_grpc_error_from_ffi_error_decode() {
    let ffi_err = FfiError::FfiCallFailed {
        function: "decode_response_wire_to_json".to_string(),
        message: "invalid wire format".to_string(),
    };
    let grpc_err: GrpcError = ffi_err.into();
    match grpc_err {
        GrpcError::Decoding(msg) => assert_eq!(msg, "invalid wire format"),
        _ => panic!("Expected Decoding error, got {:?}", grpc_err),
    }
}

#[test]
fn test_grpc_error_from_ffi_invalid_method() {
    let ffi_err = FfiError::InvalidMethodName { name: "InvalidMethod".to_string() };
    let grpc_err: GrpcError = ffi_err.into();
    match grpc_err {
        GrpcError::InvalidMethod(name) => assert_eq!(name, "InvalidMethod"),
        _ => panic!("Expected InvalidMethod error, got {:?}", grpc_err),
    }
}

#[test]
fn test_tls_config_default() {
    let config = TlsConfig {
        insecure: false,
        ca_cert_path: None,
        client_cert_path: None,
        client_key_path: None,
    };
    assert!(!config.insecure);
    assert!(config.ca_cert_path.is_none());
    assert!(config.client_cert_path.is_none());
    assert!(config.client_key_path.is_none());
}

#[test]
fn client_test_tls_config_insecure() {
    let config = TlsConfig {
        insecure: true,
        ca_cert_path: None,
        client_cert_path: None,
        client_key_path: None,
    };
    assert!(config.insecure);
}

#[test]
fn test_tls_config_with_ca_cert() {
    let config = TlsConfig {
        insecure: false,
        ca_cert_path: Some("/path/to/ca.crt".to_string()),
        client_cert_path: None,
        client_key_path: None,
    };
    assert!(!config.insecure);
    assert_eq!(config.ca_cert_path, Some("/path/to/ca.crt".to_string()));
}

#[test]
fn test_tls_config_with_mtls() {
    let config = TlsConfig {
        insecure: false,
        ca_cert_path: Some("/path/to/ca.crt".to_string()),
        client_cert_path: Some("/path/to/client.crt".to_string()),
        client_key_path: Some("/path/to/client.key".to_string()),
    };
    assert!(!config.insecure);
    assert_eq!(config.ca_cert_path, Some("/path/to/ca.crt".to_string()));
    assert_eq!(config.client_cert_path, Some("/path/to/client.crt".to_string()));
    assert_eq!(config.client_key_path, Some("/path/to/client.key".to_string()));
}

#[test]
fn test_tls_config_clone() {
    let config = TlsConfig {
        insecure: true,
        ca_cert_path: Some("/path/to/ca.crt".to_string()),
        client_cert_path: None,
        client_key_path: None,
    };
    let cloned = config.clone();
    assert_eq!(config.insecure, cloned.insecure);
    assert_eq!(config.ca_cert_path, cloned.ca_cert_path);
}

#[test]
fn client_test_unary_response_creation() {
    let mut metadata = StringMap::new();
    metadata.insert("content-type".to_string(), "application/grpc".to_string());

    let response = UnaryResponse {
        json_payload: r#"{"message":"hello"}"#.to_string(),
        metadata,
        status: ResponseStatus { code: 0, message: "OK".to_string(), status: "OK".to_string() },
        duration_ms: 42,
    };

    assert_eq!(response.json_payload, r#"{"message":"hello"}"#);
    assert_eq!(response.duration_ms, 42);
    assert_eq!(response.status.code, 0);
    assert_eq!(response.metadata.get("content-type"), Some(&"application/grpc".to_string()));
}

#[test]
fn test_grpc_error_from_transport_error_all_variants() {
    let err: GrpcError = TransportError::InvalidAddress("bad addr".to_string()).into();
    assert!(matches!(err, GrpcError::Transport(TransportError::InvalidAddress(_))));

    let err: GrpcError = TransportError::ConnectionFailed("refused".to_string()).into();
    assert!(matches!(err, GrpcError::Transport(TransportError::ConnectionFailed(_))));

    let err: GrpcError = TransportError::TlsError("cert error".to_string()).into();
    assert!(matches!(err, GrpcError::Transport(TransportError::TlsError(_))));

    let err: GrpcError = TransportError::RequestError("bad req".to_string()).into();
    assert!(matches!(err, GrpcError::Transport(TransportError::RequestError(_))));

    let err: GrpcError = TransportError::ResponseError("bad resp".to_string()).into();
    assert!(matches!(err, GrpcError::Transport(TransportError::ResponseError(_))));
}

#[test]
fn test_grpc_error_from_ffi_error_other_variants() {
    let err: GrpcError = FfiError::LibraryNotFound { paths: vec![] }.into();
    assert!(matches!(err, GrpcError::Encoding(_)));

    let err: GrpcError = FfiError::NullPointer { context: "test".to_string() }.into();
    assert!(matches!(err, GrpcError::Encoding(_)));
}

#[test]
fn test_grpc_error_display_all_variants() {
    let transport_err = GrpcError::Transport(TransportError::Timeout);
    assert!(transport_err.to_string().contains("Transport error"));

    let encoding_err = GrpcError::Encoding("test".to_string());
    assert!(encoding_err.to_string().contains("Encoding error"));

    let decoding_err = GrpcError::Decoding("test".to_string());
    assert!(decoding_err.to_string().contains("Decoding error"));

    let invalid_method_err = GrpcError::InvalidMethod("test".to_string());
    assert!(invalid_method_err.to_string().contains("Invalid method"));
}

#[test]
fn test_response_status_clone() {
    let status = ResponseStatus {
        code: 14,
        message: "Unavailable".to_string(),
        status: "ERROR".to_string(),
    };
    let cloned = status.clone();
    assert_eq!(status.code, cloned.code);
    assert_eq!(status.message, cloned.message);
    assert_eq!(status.status, cloned.status);
}

#[test]
fn test_response_status_equality() {
    let status1 = ResponseStatus { code: 0, message: "OK".to_string(), status: "OK".to_string() };
    let status2 = ResponseStatus { code: 0, message: "OK".to_string(), status: "OK".to_string() };
    let status3 = ResponseStatus {
        code: 14,
        message: "Unavailable".to_string(),
        status: "ERROR".to_string(),
    };
    assert_eq!(status1.code, status2.code);
    assert_ne!(status1.code, status3.code);
}

#[test]
fn test_tls_config_debug() {
    let config = TlsConfig {
        insecure: true,
        ca_cert_path: Some("/path/to/ca.crt".to_string()),
        client_cert_path: None,
        client_key_path: None,
    };
    let debug_str = format!("{:?}", config);
    assert!(debug_str.contains("insecure"));
    assert!(debug_str.contains("ca_cert_path"));
}

#[test]
fn test_tls_config_partial_eq() {
    let config1 = TlsConfig {
        insecure: true,
        ca_cert_path: Some("/path/to/ca.crt".to_string()),
        client_cert_path: None,
        client_key_path: None,
    };
    let config2 = TlsConfig {
        insecure: true,
        ca_cert_path: Some("/path/to/ca.crt".to_string()),
        client_cert_path: None,
        client_key_path: None,
    };
    assert_eq!(config1.insecure, config2.insecure);
    assert_eq!(config1.ca_cert_path, config2.ca_cert_path);
}

#[test]
fn test_stream_response_creation() {
    let response = StreamResponse {
        json_payload: r#"{"result":"success"}"#.to_string(),
        metadata: Some({
            let mut m = StringMap::new();
            m.insert("key".to_string(), "value".to_string());
            m
        }),
        status: Some(ResponseStatus { code: 0, message: "OK".to_string(), status: "OK".to_string() }),
    };
    assert_eq!(response.json_payload, r#"{"result":"success"}"#);
    assert!(response.metadata.is_some());
    assert!(response.status.is_some());
}
