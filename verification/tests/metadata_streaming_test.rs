use grpcui::grpc::metadata::{headers_to_metadata, parse_grpc_message, parse_grpc_status, MetadataBuilder};
use grpcui::grpc::streaming::{parse_method_path, StreamType};
use http::HeaderMap;

/// The header pairs of `headers`, each value as text when it is valid text.
fn header_pairs(headers: &HeaderMap) -> Vec<(String, Option<String>)> {
    headers
        .iter()
        .map(|(k, v)| (k.as_str().to_string(), v.to_str().ok().map(|s| s.to_string())))
        .collect()
}

#[test]
fn test_headers_to_metadata() {
    let mut headers = HeaderMap::new();
    headers.insert("content-type", "application/grpc".parse().unwrap());
    headers.insert("custom-header", "custom-value".parse().unwrap());

    let metadata = headers_to_metadata(&header_pairs(&headers));

    assert_eq!(metadata.get("content-type"), Some(&"application/grpc".to_string()));
    assert_eq!(metadata.get("custom-header"), Some(&"custom-value".to_string()));
}

#[test]
fn test_parse_grpc_status() {
    let mut headers = HeaderMap::new();
    assert_eq!(parse_grpc_status(&header_pairs(&headers)), None);

    headers.insert("grpc-status", "0".parse().unwrap());
    assert_eq!(parse_grpc_status(&header_pairs(&headers)), Some(0));

    headers.insert("grpc-status", "14".parse().unwrap());
    assert_eq!(parse_grpc_status(&header_pairs(&headers)), Some(14));
}

#[test]
fn test_parse_grpc_message() {
    let mut headers = HeaderMap::new();
    assert_eq!(parse_grpc_message(&header_pairs(&headers)), None);

    headers.insert("grpc-message", "Not found".parse().unwrap());
    assert_eq!(parse_grpc_message(&header_pairs(&headers)), Some("Not found".to_string()));
}

#[test]
fn test_metadata_builder() {
    let metadata = MetadataBuilder::new().add("key1", "value1").add("key2", "value2").build();

    assert_eq!(metadata.get("key1"), Some(&"value1".to_string()));
    assert_eq!(metadata.get("key2"), Some(&"value2".to_string()));
}

#[test]
fn test_parse_method_path() {
    let (svc, method) = parse_method_path("my.service/MyMethod").unwrap();
    assert_eq!(svc, "my.service");
    assert_eq!(method, "MyMethod");

    let (svc, method) = parse_method_path("my.service.MyMethod").unwrap();
    assert_eq!(svc, "my.service");
    assert_eq!(method, "MyMethod");

    let (svc, method) = parse_method_path("/my.service/MyMethod").unwrap();
    assert_eq!(svc, "my.service");
    assert_eq!(method, "MyMethod");

    assert!(parse_method_path("invalid").is_err());
}

#[test]
fn test_stream_type() {
    assert!(StreamType::ServerStreaming.has_server_stream());
    assert!(!StreamType::ServerStreaming.has_client_stream());

    assert!(!StreamType::ClientStreaming.has_server_stream());
    assert!(StreamType::ClientStreaming.has_client_stream());

    assert!(StreamType::Bidirectional.has_server_stream());
    assert!(StreamType::Bidirectional.has_client_stream());
}
