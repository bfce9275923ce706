use grpcui::commands::connect::{
    connect_response, dedup_paths_preserve_order, disconnect_response, normalize_non_empty_paths,
};
use grpcui::commands::convert::{
    convert_folder, convert_request_item, convert_storage_folder, convert_storage_request_item,
    millis_text, plan_collection_save, Collection, Folder, RequestItem, SaveAction,
};
use grpcui::commands::discover::{discover_response, expand_tilde_path, normalize_path_for_frontend};
use grpcui::commands::invoke::{
    close_stream_outcome, invoke_call_failure, invoke_connect_failure, invoke_response_of,
    parse_stream_type, plan_stream_start,
};
use grpcui::ffi::error::FfiError;
use grpcui::ffi::library::{library_names, library_search_paths, TargetOs};
use grpcui::ffi::manager::BridgeManager;
use grpcui::grpc::client::{GrpcError, ResponseStatus, UnaryResponse};
use grpcui::grpc::format_error_with_chain;
use grpcui::grpc::metadata::{build_metadata_headers, headers_to_metadata, metadata_to_headers, StringMap};
use grpcui::grpc::streaming::StreamType;
use grpcui::grpc::transport::{decode_grpc_unary_response, encode_grpc_frame};
use grpcui::settings::resolve_db_path;
use grpcui::storage::history::{history_page, search_query};
use grpcui::storage::models::{new_storage_id, Filters};
use grpcui::stream_manager::stream_event_name;

fn sample_item(id: &str) -> RequestItem {
    let mut metadata = StringMap::new();
    metadata.insert("authorization".to_string(), "Bearer t".to_string());
    RequestItem {
        id: id.to_string(),
        name: "Say hello".to_string(),
        item_type: "unary".to_string(),
        service: "demo.Greeter".to_string(),
        method: "SayHello".to_string(),
        body: "{}".to_string(),
        metadata,
        env_ref_type: Some("inherit".to_string()),
        environment_id: None,
    }
}

#[test]
fn dedup_keeps_first_occurrences_in_order() {
    let paths = vec!["a", "b", "a", "c", "b"].into_iter().map(String::from).collect();
    assert_eq!(dedup_paths_preserve_order(paths), vec!["a", "b", "c"]);
}

#[test]
fn dedup_leaves_distinct_paths_unchanged() {
    let paths: Vec<String> = vec!["z", "a", "m"].into_iter().map(String::from).collect();
    assert_eq!(dedup_paths_preserve_order(paths.clone()), paths);
}

#[test]
fn normalize_paths_trims_and_drops_blank_entries() {
    let paths: Vec<String> = vec!["  a/b ", "", "   ", "c"].into_iter().map(String::from).collect();
    assert_eq!(normalize_non_empty_paths(&paths), vec!["a/b", "c"]);
}

#[test]
fn request_item_survives_storing_and_showing() {
    let item = sample_item("r1");
    let back = convert_storage_request_item(convert_request_item(item.clone()));
    assert_eq!(back.id, item.id);
    assert_eq!(back.name, item.name);
    assert_eq!(back.item_type, item.item_type);
    assert_eq!(back.service, item.service);
    assert_eq!(back.method, item.method);
    assert_eq!(back.body, item.body);
    assert_eq!(back.metadata, item.metadata);
    assert_eq!(back.env_ref_type, item.env_ref_type);
    assert_eq!(back.environment_id, item.environment_id);
}

#[test]
fn folder_survives_storing_and_showing() {
    let folder = Folder {
        id: "f1".to_string(),
        name: "Greeter".to_string(),
        items: vec![sample_item("r1"), sample_item("r2")],
    };
    let back = convert_storage_folder(convert_folder(folder.clone()));
    assert_eq!(back.id, "f1");
    assert_eq!(back.name, "Greeter");
    assert_eq!(back.items.len(), 2);
    assert_eq!(back.items[0].id, "r1");
    assert_eq!(back.items[1].id, "r2");
}

#[test]
fn frame_then_decode_gives_payload_back() {
    let payload = b"hello world".to_vec();
    let framed = encode_grpc_frame(&payload).unwrap();
    assert_eq!(framed[..5], [0, 0, 0, 0, 11]);
    assert_eq!(decode_grpc_unary_response(&framed).unwrap(), payload);
}

#[test]
fn metadata_sent_is_metadata_read_back() {
    let mut m = StringMap::new();
    m.insert("x-trace".to_string(), "abc".to_string());
    m.insert("authorization".to_string(), "Bearer t".to_string());
    let sent = build_metadata_headers(&m);
    let received: Vec<(String, Option<String>)> = sent.into_iter().map(|(k, v)| (k, Some(v))).collect();
    assert_eq!(headers_to_metadata(&received), m);
}

#[test]
fn metadata_that_cannot_be_sent_is_left_out() {
    let mut m = StringMap::new();
    m.insert("bad name".to_string(), "v".to_string());
    m.insert("good".to_string(), "line\nbreak".to_string());
    m.insert("ok".to_string(), "fine".to_string());
    let sent = build_metadata_headers(&m);
    assert_eq!(sent, vec![("ok".to_string(), "fine".to_string())]);
}

#[test]
fn discovered_files_are_sorted_and_relative() {
    let root = "C:\\work\\protos";
    let found = vec![
        "C:\\work\\protos\\b\\x.proto".to_string(),
        "C:\\work\\protos\\a\\y.proto".to_string(),
        "C:\\work\\protos".to_string(),
    ];
    let response = discover_response(root, found);
    assert_eq!(response.root_dir, "C:/work/protos");
    assert_eq!(
        response.absolute_paths,
        vec!["C:/work/protos", "C:/work/protos/a/y.proto", "C:/work/protos/b/x.proto"]
    );
    assert_eq!(response.relative_paths, vec!["a/y.proto", "b/x.proto"]);
}

#[test]
fn backslashes_become_slashes() {
    assert_eq!(normalize_path_for_frontend("a\\b\\c.proto"), "a/b/c.proto");
    assert_eq!(normalize_path_for_frontend("/already/fine"), "/already/fine");
}

#[test]
fn bridge_table_tracks_handles() {
    let mut table: BridgeManager<&str> = BridgeManager::new();
    assert_eq!(table.create_bridge(1, "first"), 1);
    assert_eq!(table.create_bridge(2, "second"), 2);
    assert_eq!(table.bridge_count(), 2);
    assert_eq!(table.get_bridge(1), Some(&"first"));
    assert_eq!(table.create_bridge(1, "replaced"), 1);
    assert_eq!(table.bridge_count(), 2);
    assert_eq!(table.get_bridge(1), Some(&"replaced"));
    assert_eq!(table.remove_bridge(1), Some("replaced"));
    assert_eq!(table.get_bridge(1), None);
    assert_eq!(table.remove_bridge(1), None);
    assert_eq!(table.bridge_count(), 1);
    table.clear_bridges();
    assert_eq!(table.bridge_count(), 0);
    assert_eq!(table.get_bridge(2), None);
}

#[test]
fn library_search_order() {
    let names = library_names(TargetOs::Linux);
    assert_eq!(names, vec!["libgrpc_codec_bridge.so"]);
    assert_eq!(library_names(TargetOs::MacOs), vec!["libgrpc_codec_bridge.dylib"]);
    assert_eq!(library_names(TargetOs::Windows), vec!["grpc_codec_bridge.dll"]);
    assert_eq!(library_names(TargetOs::Other), vec!["libgrpc_codec_bridge.so"]);

    let plan = library_search_paths(Some("/custom/lib.so"), Some("/work"), Some("/opt/app/bin"), &names);
    assert_eq!(plan.len(), 1 + 9 + 5);
    assert_eq!(plan[0].base, "/custom/lib.so");
    assert!(plan[0].parts.is_empty());
    assert_eq!(plan[1].base, "/work");
    assert_eq!(plan[1].parts, vec!["libgrpc_codec_bridge.so"]);
    assert_eq!(plan[3].parts, vec!["src-tauri", "resources", "libgrpc_codec_bridge.so"]);
    assert_eq!(plan[9].parts, vec!["..", "..", "sidecar", "ffi", "libgrpc_codec_bridge.so"]);
    assert_eq!(plan[10].base, "/opt/app/bin");
    assert_eq!(plan[14].parts, vec!["..", "sidecar", "ffi", "libgrpc_codec_bridge.so"]);

    let bare = library_search_paths(None, None, None, &names);
    assert!(bare.is_empty());
}

#[test]
fn history_search_query_text() {
    let filters = Filters {
        service: Some("demo.Greeter".to_string()),
        method: None,
        status: Some("OK".to_string()),
        start_time: Some(100),
        end_time: None,
        limit: Some(20),
        offset: Some(40),
    };
    let q = search_query("SayHELLO", &filters);
    assert_eq!(
        q.sql,
        "SELECT id, project_id, timestamp, service, method, address, status, response_code, response_message, duration, request_snapshot, created_at FROM history WHERE (LOWER(service) LIKE ? OR LOWER(method) LIKE ?) AND service = ? AND status = ? AND timestamp >= ? ORDER BY timestamp DESC LIMIT 20 OFFSET 40"
    );
    assert_eq!(q.args, vec!["%sayhello%", "%sayhello%", "demo.Greeter", "OK", "100"]);
    assert_eq!(q.sql.matches('?').count(), q.args.len());
}

#[test]
fn history_search_without_filters() {
    let q = search_query("", &Filters::default());
    assert_eq!(
        q.sql,
        "SELECT id, project_id, timestamp, service, method, address, status, response_code, response_message, duration, request_snapshot, created_at FROM history ORDER BY timestamp DESC"
    );
    assert!(q.args.is_empty());
    let offset_only = search_query("", &Filters { offset: Some(5), ..Filters::default() });
    assert!(!offset_only.sql.contains("OFFSET"));
}

#[test]
fn history_page_defaults() {
    assert_eq!(history_page(None, None), (100, 0));
    assert_eq!(history_page(Some(5), Some(10)), (5, 10));
}

#[test]
fn storage_ids_are_hex_and_fresh() {
    let a = new_storage_id();
    let b = new_storage_id();
    assert_eq!(a.len(), 32);
    assert!(a.chars().all(|c| c.is_ascii_hexdigit() && !c.is_ascii_uppercase()));
    assert_ne!(a, b);
}

#[test]
fn db_path_resolution() {
    assert_eq!(resolve_db_path(None), "grpcui.db");
    assert_eq!(resolve_db_path(Some("   ")), "grpcui.db");
    assert_eq!(resolve_db_path(Some("  /data/app.db ")), "/data/app.db");
}

#[test]
fn error_chain_formatting() {
    let chain = vec!["transport error".to_string(), "connection refused".to_string()];
    assert_eq!(
        format_error_with_chain(&chain, "Error { kind: Connect }"),
        "chain=[transport error <- connection refused]; debug=Error { kind: Connect }"
    );
    assert_eq!(format_error_with_chain(&vec![], "X"), "chain=[]; debug=X");
}

#[test]
fn stream_event_names() {
    assert_eq!(stream_event_name("abc-1"), "grpc:stream:abc-1");
}

#[test]
fn stream_type_names() {
    assert_eq!(parse_stream_type("server"), Ok(StreamType::ServerStreaming));
    assert_eq!(parse_stream_type("client"), Ok(StreamType::ClientStreaming));
    assert_eq!(parse_stream_type("bidi"), Ok(StreamType::Bidirectional));
    assert_eq!(
        parse_stream_type("unary"),
        Err("Invalid stream type: unary. Expected 'server', 'client', or 'bidi'".to_string())
    );
}

#[test]
fn stream_start_plans() {
    let s = plan_stream_start(StreamType::ServerStreaming, "{}");
    assert_eq!(s.initial_request.as_deref(), Some("{}"));
    assert!(!s.send_body_after_open);
    let c = plan_stream_start(StreamType::ClientStreaming, "{\"a\":1}");
    assert!(c.initial_request.is_none());
    assert!(c.send_body_after_open);
    let b = plan_stream_start(StreamType::Bidirectional, "  ");
    assert!(!b.send_body_after_open);
}

#[test]
fn closing_streams() {
    assert_eq!(close_stream_outcome(None, false), Ok(()));
    assert_eq!(close_stream_outcome(Some("boom".to_string()), true), Ok(()));
    assert_eq!(close_stream_outcome(Some("Stream x not found".to_string()), false), Ok(()));
    assert_eq!(close_stream_outcome(Some("boom".to_string()), false), Err("boom".to_string()));
}

#[test]
fn invoke_responses() {
    let failed = invoke_connect_failure(&GrpcError::NotConnected);
    assert_eq!(failed.error.as_deref(), Some("Failed to connect: Not connected to gRPC server"));
    assert_eq!(failed.message, "Not connected to gRPC server");
    assert_eq!(failed.status, "ERROR");
    assert_eq!(failed.code, -1);
    assert_eq!(failed.duration, 0);
    assert!(failed.data.is_none());

    let call = invoke_call_failure(&GrpcError::Timeout);
    assert_eq!(call.error.as_deref(), Some("Request timed out"));

    let ok = invoke_response_of(UnaryResponse {
        json_payload: "{\"message\":\"hi\"}".to_string(),
        metadata: StringMap::new(),
        status: ResponseStatus { code: 0, message: "OK".to_string(), status: "OK".to_string() },
        duration_ms: 7,
    });
    assert_eq!(ok.data.unwrap()["message"], "hi");
    assert!(ok.error.is_none());
    assert_eq!(ok.duration, 7);

    let failed_status = invoke_response_of(UnaryResponse {
        json_payload: "{}".to_string(),
        metadata: StringMap::new(),
        status: ResponseStatus { code: 5, message: "missing".to_string(), status: "ERROR".to_string() },
        duration_ms: 3,
    });
    assert_eq!(failed_status.error.as_deref(), Some("missing"));
    assert_eq!(failed_status.code, 5);

    let unreadable = invoke_response_of(UnaryResponse {
        json_payload: "not json".to_string(),
        metadata: StringMap::new(),
        status: ResponseStatus { code: 0, message: "OK".to_string(), status: "OK".to_string() },
        duration_ms: 1,
    });
    assert!(unreadable.data.is_none());
    assert_eq!(unreadable.status, "ERROR");
    assert!(unreadable.message.starts_with("Failed to parse response: "));
    assert!(unreadable.message.len() > "Failed to parse response: ".len());
}

#[test]
fn connect_and_disconnect_answers() {
    let ok = connect_response(Ok(()));
    assert!(ok.success && ok.error.is_none());
    let failed = connect_response(Err("boom".to_string()));
    assert!(!failed.success);
    assert_eq!(failed.error.as_deref(), Some("boom"));

    let d = disconnect_response(Err(FfiError::NullPointer { context: "reset".to_string() }));
    assert!(!d.success);
    assert_eq!(d.error.as_deref(), Some("重置 gRPC 解析状态失败: 在 'reset' 中遇到空指针"));
    assert!(disconnect_response(Ok(())).success);
}

#[test]
fn collection_saves() {
    let c = Collection {
        id: "c1".to_string(),
        project_id: None,
        name: "Greeter".to_string(),
        folders: vec![],
        items: vec![sample_item("r1")],
        created_at: None,
        updated_at: None,
    };
    match plan_collection_save(c.clone(), true).unwrap() {
        SaveAction::Update(u) => {
            assert_eq!(u.name.as_deref(), Some("Greeter"));
            assert_eq!(u.items.unwrap()[0].id, "r1");
        }
        SaveAction::Create(_) => panic!("an existing collection is updated"),
    }
    assert_eq!(plan_collection_save(c.clone(), false).unwrap_err(), "Project ID is required");
    let with_project = Collection { project_id: Some("p1".to_string()), ..c };
    match plan_collection_save(with_project, false).unwrap() {
        SaveAction::Create(k) => assert_eq!(k.project_id, "p1"),
        SaveAction::Update(_) => panic!("a new collection is created"),
    }
    assert_eq!(millis_text(-1234), "-1234");
    assert_eq!(millis_text(1700000000000), "1700000000000");
}

#[test]
fn tilde_alone_is_the_home_directory() {
    let e = expand_tilde_path("  ~ ", Some("/home/dev"));
    assert_eq!(e.base, "/home/dev");
    assert_eq!(e.relative, None);
}

#[test]
fn tilde_prefix_is_joined_under_home() {
    let e = expand_tilde_path("~/protos/api", Some("/home/dev"));
    assert_eq!(e.base, "/home/dev");
    assert_eq!(e.relative.as_deref(), Some("protos/api"));
    let w = expand_tilde_path("~\\protos", Some("C:\\Users\\dev"));
    assert_eq!(w.base, "C:\\Users\\dev");
    assert_eq!(w.relative.as_deref(), Some("protos"));
}

#[test]
fn tilde_kept_without_home_or_separator() {
    let e = expand_tilde_path("~/protos", None);
    assert_eq!(e.base, "~/protos");
    assert_eq!(e.relative, None);
    let f = expand_tilde_path(" ~user/protos ", Some("/home/dev"));
    assert_eq!(f.base, "~user/protos");
    assert_eq!(f.relative, None);
    let g = expand_tilde_path("/abs/path", Some("/home/dev"));
    assert_eq!(g.base, "/abs/path");
}

#[test]
fn test_resolve_proto_root_directory_supports_tilde_path() {
    let fake_home = std::path::PathBuf::from("/tmp/grpcui-test/home");
    let target = fake_home.join("workspace/proto");
    let expanded = expand_tilde_path("~/workspace/proto", Some("/tmp/grpcui-test/home"));
    let resolved = match expanded.relative {
        Some(rel) => std::path::PathBuf::from(expanded.base).join(rel),
        None => std::path::PathBuf::from(expanded.base),
    };
    assert_eq!(resolved, target);
}

#[test]
fn metadata_travels_as_binary_headers() {
    let mut m = StringMap::new();
    m.insert("Trace-ID".to_string(), "abc".to_string());
    m.insert("bad key".to_string(), "v".to_string());
    m.insert("note".to_string(), "line\nbreak".to_string());
    m.insert("User".to_string(), "ann".to_string());
    let headers = metadata_to_headers(&m);
    assert_eq!(
        headers,
        vec![
            ("x-trace-id-bin".to_string(), "abc".to_string()),
            ("x-user-bin".to_string(), "ann".to_string()),
        ]
    );
    assert!(metadata_to_headers(&StringMap::new()).is_empty());
}

#[test]
fn environment_search_matches_lowercase_anywhere() {
    assert_eq!(grpcui::storage::environments::environment_search_pattern("Staging API"), "%staging api%");
    assert_eq!(grpcui::storage::environments::environment_search_pattern(""), "%%");
}

#[test]
fn history_query_binds_one_argument_per_placeholder() {
    let none = Filters { service: None, method: None, status: None, start_time: None, end_time: None, limit: None, offset: None };
    let q = search_query("", &none);
    assert_eq!(q.sql.matches('?').count(), 0);
    assert!(q.args.is_empty());

    let all = Filters {
        service: Some("a.B".to_string()),
        method: Some("Call".to_string()),
        status: Some("ERROR".to_string()),
        start_time: Some(-5),
        end_time: Some(99),
        limit: Some(10),
        offset: Some(-1),
    };
    let q = search_query("Find?", &all);
    assert_eq!(q.args.len(), 7);
    assert_eq!(q.sql.matches('?').count(), q.args.len());
    assert!(q.sql.ends_with("LIMIT 10 OFFSET -1"));
}

#[test]
fn outside_errors_become_app_errors() {
    let json_err = serde_json::from_str::<serde_json::Value>("{").unwrap_err();
    let text = json_err.to_string();
    let e: grpcui::error::AppError = json_err.into();
    assert!(matches!(&e, grpcui::error::AppError::DeserializationFailed(m) if *m == text));
    assert_eq!(e.to_string(), format!("Deserialization failed: {}", text));

    let io_err = std::io::Error::new(std::io::ErrorKind::NotFound, "no such sidecar");
    let e: grpcui::error::AppError = io_err.into();
    assert_eq!(e.to_string(), "Failed to start sidecar: no such sidecar");
}

#[test]
fn resolve_db_path_uses_default_when_env_absent() {
    assert_eq!(resolve_db_path(None), "grpcui.db");
}

#[test]
fn resolve_db_path_uses_env_value_when_present() {
    let expected = "/tmp/grpcui-dev-tests/grpcui.db".to_string();
    assert_eq!(resolve_db_path(Some(&expected)), expected);
}

#[test]
fn relative_proto_file_contributes_its_parent() {
    assert_eq!(grpcui::commands::connect::proto_file_ancestors("protos/api/service.proto"), vec!["protos/api".to_string()]);
    assert_eq!(grpcui::commands::connect::proto_file_ancestors("service.proto"), vec!["".to_string()]);
    let abs = grpcui::commands::connect::proto_file_ancestors("/work/protos/service.proto");
    assert_eq!(abs, vec!["/work/protos".to_string(), "/work".to_string(), "/".to_string()]);
}

#[test]
fn stream_status_prefers_trailers() {
    let headers = vec![("content-type".to_string(), Some("application/grpc".to_string()))];
    let trailers = vec![
        ("grpc-status".to_string(), Some("5".to_string())),
        ("grpc-message".to_string(), Some("missing".to_string())),
    ];
    let last = grpcui::grpc::client::server_stream_final(&headers, &trailers);
    let st = last.status.expect("final item carries a status");
    assert_eq!(st.code, 5);
    assert_eq!(st.status, "ERROR");
    assert_eq!(st.message, "missing");
    assert_eq!(last.json_payload, "{}");

    let header_status = vec![("grpc-status".to_string(), Some("0".to_string()))];
    let ok = grpcui::grpc::client::server_stream_final(&header_status, &Vec::new()).status.unwrap();
    assert_eq!((ok.code, ok.status.as_str(), ok.message.as_str()), (0, "OK", "OK"));
    let neither = grpcui::grpc::client::server_stream_final(&Vec::new(), &Vec::new()).status.unwrap();
    assert_eq!(neither.code, 0);
}

#[test]
fn proto_files_are_found_by_extension() {
    let has = grpcui::commands::discover::has_proto_extension;
    assert!(has("service.proto"));
    assert!(has("payment.PROTO"));
    assert!(has("a.b.Proto"));
    assert!(!has(".proto"));
    assert!(!has("proto"));
    assert!(!has("service.protos"));
    assert!(!has("service.proto.bak"));
    assert!(!has("service."));
    assert_eq!(grpcui::commands::discover::validate_root_dir("  /work/protos "), Ok("/work/protos".to_string()));
    assert_eq!(grpcui::commands::discover::validate_root_dir("   "), Err("导入目录不能为空".to_string()));
}

#[test]
fn client_stream_messages_travel_in_frames() {
    let mut body: Vec<u8> = Vec::new();
    grpcui::grpc::streaming::append_stream_message(&mut body, &[1, 2]).unwrap();
    grpcui::grpc::streaming::append_stream_message(&mut body, &[]).unwrap();
    assert_eq!(body, vec![0, 0, 0, 0, 2, 1, 2, 0, 0, 0, 0, 0]);
}

#[test]
fn built_metadata_counts_its_keys() {
    let m = grpcui::grpc::metadata::MetadataBuilder::new().add("key1", "value1").add("key2", "value2").add("key1", "again").build();
    assert_eq!(m.len(), 2);
    assert_eq!(m.get("key1"), Some(&"again".to_string()));
}

#[test]
fn binary_headers_keep_one_entry_per_name() {
    let mut m = StringMap::new();
    m.insert("Trace".to_string(), "first".to_string());
    m.insert("user".to_string(), "ann".to_string());
    m.insert("trace".to_string(), "second".to_string());
    assert_eq!(
        metadata_to_headers(&m),
        vec![
            ("x-trace-bin".to_string(), "second".to_string()),
            ("x-user-bin".to_string(), "ann".to_string()),
        ]
    );
}

#[test]
fn import_ancestors_walk_up_to_the_limit() {
    let mut paths = vec!["x".to_string()];
    grpcui::commands::connect::append_import_path_ancestors(Some("/a/b/c".to_string()), &mut paths, 8);
    assert_eq!(paths, vec!["x", "/a/b/c", "/a/b", "/a", "/"]);
    let mut two = vec!["x".to_string()];
    grpcui::commands::connect::append_import_path_ancestors(Some("/a/b/c".to_string()), &mut two, 2);
    assert_eq!(two, vec!["x", "/a/b/c", "/a/b"]);
    let mut rel: Vec<String> = Vec::new();
    grpcui::commands::connect::append_import_path_ancestors(Some("a/b".to_string()), &mut rel, 8);
    assert_eq!(rel, vec!["a/b", "a"]);
}

fn connect_request(proto_file: &str) -> grpcui::commands::requests::ConnectRequest {
    grpcui::commands::requests::ConnectRequest {
        address: "localhost:50051".to_string(),
        tls: None,
        insecure: false,
        proto_file: Some(proto_file.to_string()),
        proto_files: None,
        import_paths: None,
        use_reflection: false,
    }
}

#[test]
fn absolute_proto_file_expands_ancestors() {
    let request = connect_request("/ws/common/proto/user/app/user_service.proto");
    let plan = grpcui::commands::connect::connect_plan_for(&request, &vec![true]).unwrap();
    assert_eq!(
        plan,
        grpcui::commands::connect::ConnectPlan::ProtoFiles {
            proto_paths: vec!["/ws/common/proto/user/app/user_service.proto".to_string()],
            import_paths: vec![
                "/ws/common/proto/user/app".to_string(),
                "/ws/common/proto/user".to_string(),
                "/ws/common/proto".to_string(),
                "/ws/common".to_string(),
                "/ws".to_string(),
                "/".to_string(),
            ],
        }
    );
    let relative = grpcui::commands::connect::connect_plan_for(&request, &vec![false]).unwrap();
    assert_eq!(
        relative,
        grpcui::commands::connect::ConnectPlan::ProtoFiles {
            proto_paths: vec!["/ws/common/proto/user/app/user_service.proto".to_string()],
            import_paths: vec!["/ws/common/proto/user/app".to_string()],
        }
    );
    assert_eq!(
        grpcui::commands::connect::proto_file_ancestors_for("a/b/c/d.proto", true),
        vec!["a/b/c".to_string(), "a/b".to_string(), "a".to_string(), "".to_string()]
    );
}

#[test]
fn opened_streams_get_v4_ids() {
    let mut registry = grpcui::grpc::streaming::StreamRegistry::new();
    let id = registry.open(StreamType::Bidirectional);
    assert_eq!(id.len(), 36);
    assert_eq!(id.as_bytes()[14], b'4');
    assert!(matches!(id.as_bytes()[19], b'8' | b'9' | b'a' | b'b'));
    assert!(id.chars().enumerate().all(|(i, c)| if [8, 13, 18, 23].contains(&i) { c == '-' } else { c.is_ascii_hexdigit() && !c.is_ascii_uppercase() }));
    assert!(registry.stream_exists(&id));
    assert_eq!(registry.active_stream_count(), 1);
}

#[test]
fn unary_body_is_one_frame_of_its_payload() {
    let framed = encode_grpc_frame(&[7, 8, 9]).unwrap();
    assert_eq!(decode_grpc_unary_response(&framed).unwrap(), vec![7, 8, 9]);
    let mut longer = framed.clone();
    longer.push(0);
    assert!(decode_grpc_unary_response(&longer).is_err());
}

#[test]
fn outside_errors_become_ffi_errors() {
    let bad = vec![0xffu8, 0xfe];
    let utf8_err = std::str::from_utf8(&bad).unwrap_err();
    let e: FfiError = utf8_err.into();
    assert!(matches!(e, FfiError::InvalidUtf8 { ref bytes } if bytes.is_empty()));

    let io_err = std::io::Error::new(std::io::ErrorKind::Other, "disk gone");
    let e: FfiError = io_err.into();
    assert!(matches!(e, FfiError::IoError { ref context, ref reason } if context == "IO 操作" && reason == "disk gone"));

    let json_err = serde_json::from_str::<serde_json::Value>("[").unwrap_err();
    let text = json_err.to_string();
    let e: FfiError = json_err.into();
    assert!(matches!(e, FfiError::JsonParseError { ref json, ref reason } if json.is_empty() && *reason == text));
}

#[test]
fn app_errors_become_error_responses() {
    let r: grpcui::error::ErrorResponse = grpcui::error::AppError::TimeoutError.into();
    assert_eq!(r.code, "TIMEOUT_ERROR");
    assert_eq!(r.message, "Operation timed out");
    assert!(r.details.is_none());
    let e = grpcui::grpc::streaming::encode_failure(FfiError::InvalidMethodName { name: "x".to_string() });
    assert!(matches!(e, grpcui::error::AppError::GrpcStreamFailed(ref m) if m.starts_with("Failed to encode request: ")));
}
