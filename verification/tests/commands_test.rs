use grpcui::commands::connect::{build_connect_plan, build_reflection_tls_config, ConnectPlan};
use grpcui::commands::discover::discover_response;
use grpcui::commands::invoke::{
    build_stream_tls_config, resolve_request_authority, should_send_initial_stream_message,
};
use grpcui::commands::requests::ConnectRequest;
use grpcui::commands::schema::{
    map_ffi_method_input_schema, map_ffi_services, FfiMessageField, FfiMethod, FfiMethodInputSchema,
    FfiService, FfiServiceListResponse,
};
use grpcui::grpc::streaming::StreamType;
use grpcui::storage::models::TLSConfig;

fn scalar_field(name: &str, kind: &str, field_type: &str, enum_values: Vec<String>) -> FfiMessageField {
    FfiMessageField {
        name: name.to_string(),
        json_name: name.to_string(),
        kind: kind.to_string(),
        field_type: field_type.to_string(),
        repeated: false,
        required: false,
        optional: false,
        one_of: None,
        enum_values,
        fields: vec![],
        map: false,
        map_key_type: None,
        map_value_kind: None,
        map_value_type: None,
        map_value_enum_values: vec![],
        map_value_fields: vec![],
    }
}

#[test]
fn test_build_connect_plan_prefers_reflection() {
    let request = ConnectRequest {
        address: "localhost:50051".to_string(),
        tls: None,
        insecure: false,
        proto_file: Some("/tmp/example.proto".to_string()),
        proto_files: None,
        import_paths: None,
        use_reflection: true,
    };

    let plan = build_connect_plan(&request).expect("reflection 分支应可生成计划");
    assert_eq!(plan, ConnectPlan::Reflection);
}

#[test]
fn test_build_connect_plan_proto_branch_with_import_dir() {
    let request = ConnectRequest {
        address: "localhost:50051".to_string(),
        tls: None,
        insecure: false,
        proto_file: Some("fixtures/echo/service.proto".to_string()),
        proto_files: None,
        import_paths: None,
        use_reflection: false,
    };

    let plan = build_connect_plan(&request).expect("proto 分支应可生成计划");
    assert_eq!(
        plan,
        ConnectPlan::ProtoFiles {
            proto_paths: vec!["fixtures/echo/service.proto".to_string()],
            import_paths: vec!["fixtures/echo".to_string()],
        }
    );
}

#[test]
fn test_build_connect_plan_prefers_proto_files_and_dedup_import_paths() {
    let request = ConnectRequest {
        address: "localhost:50051".to_string(),
        tls: None,
        insecure: false,
        proto_file: Some("legacy.proto".to_string()),
        proto_files: Some(vec![
            "apis/user/user.proto".to_string(),
            "apis/order/order.proto".to_string(),
        ]),
        import_paths: Some(vec![
            "apis".to_string(),
            "apis/order".to_string(),
            "apis".to_string(),
        ]),
        use_reflection: false,
    };

    let plan = build_connect_plan(&request).expect("批量 proto 分支应可生成计划");
    assert_eq!(
        plan,
        ConnectPlan::ProtoFiles {
            proto_paths: vec![
                "apis/user/user.proto".to_string(),
                "apis/order/order.proto".to_string(),
            ],
            import_paths: vec![
                "apis".to_string(),
                "apis/order".to_string(),
                "apis/user".to_string(),
            ],
        }
    );
}

#[test]
fn test_build_connect_plan_absolute_proto_file_expands_ancestor_import_paths() {
    let root = "/tmp/grpcui-plan-test";
    let proto_file_str = format!("{root}/workspace/common/proto/user/app/user_service.proto");
    let request = ConnectRequest {
        address: "localhost:50051".to_string(),
        tls: None,
        insecure: false,
        proto_file: Some(proto_file_str.clone()),
        proto_files: None,
        import_paths: None,
        use_reflection: false,
    };

    let plan = build_connect_plan(&request).expect("绝对路径单文件分支应可生成计划");

    match plan {
        ConnectPlan::Reflection => panic!("不应落到 reflection 分支"),
        ConnectPlan::ProtoFiles { proto_paths, import_paths } => {
            assert_eq!(proto_paths, vec![proto_file_str]);

            let proto_parent = format!("{root}/workspace/common/proto/user/app");
            let proto_root = format!("{root}/workspace/common/proto");
            let workspace_root = format!("{root}/workspace");

            assert!(import_paths.contains(&proto_parent));
            assert!(import_paths.contains(&proto_root));
            assert!(import_paths.contains(&workspace_root));

            let unique_count = import_paths
                .iter()
                .cloned()
                .collect::<std::collections::HashSet<_>>()
                .len();
            assert_eq!(unique_count, import_paths.len());
        }
    }
}

#[test]
fn test_build_connect_plan_requires_valid_source() {
    let request = ConnectRequest {
        address: "localhost:50051".to_string(),
        tls: None,
        insecure: false,
        proto_file: None,
        proto_files: None,
        import_paths: None,
        use_reflection: false,
    };

    let error = build_connect_plan(&request).expect_err("应返回缺少连接来源的错误");
    assert!(error.contains("reflection") || error.contains("proto"));
}

#[test]
fn test_discover_proto_files_from_root_collects_nested_files() {
    let root = "/tmp/grpcui-discover/proto-root";
    let found = vec![
        format!("{root}/user/service.proto"),
        format!("{root}/order/payment.PROTO"),
    ];

    let response = discover_response(root, found);

    assert_eq!(response.relative_paths, vec![
        "order/payment.PROTO".to_string(),
        "user/service.proto".to_string(),
    ]);
    assert_eq!(response.absolute_paths.len(), 2);
    assert!(response.absolute_paths[0].ends_with("order/payment.PROTO"));
    assert!(response.absolute_paths[1].ends_with("user/service.proto"));
}

#[test]
fn test_map_ffi_services_payload_to_frontend_shape() {
    let payload = FfiServiceListResponse {
        services: vec![FfiService {
            name: "Greeter".to_string(),
            full_name: "demo.Greeter".to_string(),
            source_path: Some("user/greeter.proto".to_string()),
            methods: vec![FfiMethod {
                name: "SayHello".to_string(),
                full_name: "demo.Greeter.SayHello".to_string(),
                input_type: "demo.HelloRequest".to_string(),
                output_type: "demo.HelloReply".to_string(),
                method_type: "unary".to_string(),
            }],
        }],
    };

    let response = map_ffi_services(payload);

    assert_eq!(response.services[0].full_name, "demo.Greeter");
    assert_eq!(response.services[0].source_path.as_deref(), Some("user/greeter.proto"));
    assert_eq!(response.services[0].methods[0].full_name, "demo.Greeter.SayHello");
    assert_eq!(response.services[0].methods[0].input_type, "demo.HelloRequest");
    assert_eq!(response.services[0].methods[0].output_type, "demo.HelloReply");
    assert_eq!(response.services[0].methods[0].method_type, "unary");
}

#[test]
fn test_map_ffi_method_input_schema_payload_to_frontend_shape() {
    let payload = FfiMethodInputSchema {
        message_type: "demo.CreateUserRequest".to_string(),
        fields: vec![
            scalar_field("name", "scalar", "string", vec![]),
            scalar_field(
                "status",
                "enum",
                "demo.Status",
                vec!["STATUS_UNSPECIFIED".to_string(), "STATUS_ACTIVE".to_string()],
            ),
        ],
    };

    let response = map_ffi_method_input_schema(payload);

    assert_eq!(response.message_type, "demo.CreateUserRequest");
    assert_eq!(response.fields[0].json_name, "name");
    assert_eq!(response.fields[0].field_type, "string");
    assert_eq!(response.fields[1].kind, "enum");
    assert_eq!(response.fields[1].enum_values[1], "STATUS_ACTIVE");
}

#[test]
fn test_build_reflection_tls_config_mapping() {
    let request = ConnectRequest {
        address: "localhost:50051".to_string(),
        tls: Some(TLSConfig {
            enabled: true,
            ca_file: Some("/tmp/ca.pem".to_string()),
            cert_file: Some("/tmp/client.pem".to_string()),
            key_file: Some("/tmp/client.key".to_string()),
            server_name: None,
            insecure: false,
        }),
        insecure: true,
        proto_file: None,
        proto_files: None,
        import_paths: None,
        use_reflection: true,
    };

    let tls_config = build_reflection_tls_config(&request).expect("应构建 TLS 配置");
    assert!(tls_config.insecure);
    assert_eq!(tls_config.ca_path.as_deref(), Some("/tmp/ca.pem"));
    assert_eq!(tls_config.cert_path.as_deref(), Some("/tmp/client.pem"));
    assert_eq!(tls_config.key_path.as_deref(), Some("/tmp/client.key"));
}

#[test]
fn test_build_stream_tls_config_disabled_returns_none() {
    let tls = TLSConfig {
        enabled: false,
        ca_file: Some("/tmp/ca.pem".to_string()),
        cert_file: Some("/tmp/client.pem".to_string()),
        key_file: Some("/tmp/client.key".to_string()),
        server_name: Some("example.internal".to_string()),
        insecure: true,
    };

    let mapped = build_stream_tls_config(Some(&tls));
    assert!(mapped.is_none());
}

#[test]
fn test_build_stream_tls_config_enabled_maps_fields() {
    let tls = TLSConfig {
        enabled: true,
        ca_file: Some("/tmp/ca.pem".to_string()),
        cert_file: Some("/tmp/client.pem".to_string()),
        key_file: Some("/tmp/client.key".to_string()),
        server_name: None,
        insecure: false,
    };

    let mapped = build_stream_tls_config(Some(&tls)).expect("enabled 场景应生成 TLS 配置");
    assert!(!mapped.insecure);
    assert_eq!(mapped.ca_cert_path.as_deref(), Some("/tmp/ca.pem"));
    assert_eq!(mapped.client_cert_path.as_deref(), Some("/tmp/client.pem"));
    assert_eq!(mapped.client_key_path.as_deref(), Some("/tmp/client.key"));
}

#[test]
fn test_resolve_request_authority_prefers_request_value() {
    let tls = TLSConfig {
        enabled: true,
        ca_file: None,
        cert_file: None,
        key_file: None,
        server_name: Some("tls.example.internal".to_string()),
        insecure: false,
    };

    let resolved = resolve_request_authority(Some("api.example.com"), Some(&tls));
    assert_eq!(resolved.as_deref(), Some("api.example.com"));
}

#[test]
fn test_resolve_request_authority_falls_back_to_tls_server_name() {
    let tls = TLSConfig {
        enabled: true,
        ca_file: None,
        cert_file: None,
        key_file: None,
        server_name: Some("gateway.example.com".to_string()),
        insecure: false,
    };

    let resolved = resolve_request_authority(None, Some(&tls));
    assert_eq!(resolved.as_deref(), Some("gateway.example.com"));
}

#[test]
fn test_should_send_initial_stream_message_strategy() {
    assert!(should_send_initial_stream_message(StreamType::ServerStreaming, "{}"));
    assert!(should_send_initial_stream_message(StreamType::ClientStreaming, r#"{"name":"jack"}"#));
    assert!(should_send_initial_stream_message(StreamType::Bidirectional, r#"{"name":"jack"}"#));

    assert!(!should_send_initial_stream_message(StreamType::ClientStreaming, "   "));
}
