use grpcui::ffi::library::{library_names, library_search_paths, LibraryCandidate, TargetOs};
use grpcui::ffi::manager::BridgeManager;

const ALL_OS: [TargetOs; 3] = [TargetOs::MacOs, TargetOs::Linux, TargetOs::Windows];

fn candidates(configured: Option<&str>) -> Vec<LibraryCandidate> {
    let names = library_names(TargetOs::Linux);
    library_search_paths(configured, Some("/work/app"), Some("/opt/grpcui/bin"), &names)
}

#[test]
fn test_library_names() {
    let names = library_names(TargetOs::MacOs);
    assert!(!names.is_empty(), "库名列表不应为空");
    assert_eq!(names, vec!["libgrpc_codec_bridge.dylib".to_string()]);
    assert_eq!(library_names(TargetOs::Linux), vec!["libgrpc_codec_bridge.so".to_string()]);
    assert_eq!(library_names(TargetOs::Windows), vec!["grpc_codec_bridge.dll".to_string()]);
}

#[test]
fn test_library_search_paths() {
    let paths = candidates(None);
    assert!(!paths.is_empty(), "搜索路径不应为空");
}

#[test]
fn test_library_search_paths_include_resources_candidate() {
    let paths = candidates(None);
    let lib_name = library_names(TargetOs::Linux).first().cloned().expect("平台库名列表不应为空");
    assert!(
        paths.iter().any(|c| c.parts.ends_with(&["resources".to_string(), lib_name.clone()])),
        "搜索路径应包含 resources 候选: {}",
        lib_name
    );
}

#[test]
fn test_library_search_paths_with_env() {
    let custom_path = "/custom/path/to/lib";
    let paths = candidates(Some(custom_path));
    assert_eq!(paths.first().map(|c| c.base.clone()), Some(custom_path.to_string()));
    assert!(paths.first().map(|c| c.parts.is_empty()).unwrap_or(false));
    assert!(paths.iter().any(|c| c.base.contains(custom_path)));
}

#[test]
fn test_library_search_paths_order() {
    let paths = candidates(Some("/custom/path"));
    assert!(paths[0].base.contains("/custom/path"));
}

#[test]
fn test_library_names_contains_base() {
    for os in ALL_OS {
        let names = library_names(os);
        assert!(names.iter().all(|n| n.contains("grpc_codec_bridge")), "库名应包含 grpc_codec_bridge");
    }
}

#[test]
fn test_library_names_format() {
    for (os, ext) in [(TargetOs::MacOs, ".dylib"), (TargetOs::Linux, ".so"), (TargetOs::Windows, ".dll")] {
        let names = library_names(os);
        assert!(!names.is_empty());
        for name in &names {
            assert!(name.contains("grpc_codec_bridge"));
        }
        assert!(names.iter().all(|n| n.ends_with(ext)));
    }
}

#[test]
fn test_bridge_manager_basic() {
    let mut manager: BridgeManager<u32> = BridgeManager::new();
    assert_eq!(manager.bridge_count(), 0, "初始桥接数应为 0");
    assert!(manager.get_bridge(0).is_none(), "不存在的句柄应返回 None");
    assert!(manager.remove_bridge(0).is_none(), "移除不存在的句柄应返回 None");
}

#[test]
fn test_bridge_manager_count() {
    let manager: BridgeManager<u32> = BridgeManager::new();
    assert_eq!(manager.bridge_count(), 0);
}

#[test]
fn test_bridge_manager_clear() {
    let mut manager: BridgeManager<u32> = BridgeManager::new();
    manager.clear_bridges();
    assert_eq!(manager.bridge_count(), 0, "清空后桥接数应为 0");
}

#[test]
fn test_bridge_manager_default() {
    let manager: BridgeManager<u32> = Default::default();
    assert_eq!(manager.bridge_count(), 0);
}

#[test]
fn test_bridge_manager_get_nonexistent() {
    let manager: BridgeManager<u32> = BridgeManager::new();
    assert!(manager.get_bridge(9999).is_none());
}

#[test]
fn test_bridge_manager_remove_nonexistent() {
    let mut manager: BridgeManager<u32> = BridgeManager::new();
    assert!(manager.remove_bridge(9999).is_none());
}

#[test]
fn test_bridge_manager_clear_empty() {
    let mut manager: BridgeManager<u32> = BridgeManager::new();
    manager.clear_bridges();
    assert_eq!(manager.bridge_count(), 0);
}
