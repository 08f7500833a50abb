use host_desktop::bootstrap::model::RuntimeLayoutKind;
use host_desktop::bootstrap::runtime_locator::{
    layout_from_parts, locate_runtime_layout, LocateError, LocatorParts, RuntimeLocatorInput,
};
use host_desktop::logging::HostLogWriter;
use std::path::PathBuf;

#[test]
fn bundle_layout_is_found_from_bin_directory() {
    let layout = locate_runtime_layout(
        RuntimeLocatorInput {
            executable_path: "/opt/ios-control/bin/host-desktop".into(),
            manifest_dir: "/src/apps/host-desktop".into(),
            cargo_target_dir: None,
            cargo_build_target: None,
        },
        "",
    )
    .expect("bundle layout should resolve");

    assert_eq!(layout.kind, RuntimeLayoutKind::Bundle);
    assert_eq!(layout.root, "/opt/ios-control");
    assert_eq!(
        PathBuf::from(&layout.plugin_paths.capture),
        PathBuf::from("/opt/ios-control/plugins/plugin-capture-window")
    );
    assert_eq!(
        PathBuf::from(&layout.plugin_paths.control_ble),
        PathBuf::from("/opt/ios-control/plugins/plugin-control-ble")
    );
}

#[test]
fn workspace_layout_uses_target_debug_directory() {
    let layout = locate_runtime_layout(
        RuntimeLocatorInput {
            executable_path: "/src/target/debug/host-desktop".into(),
            manifest_dir: "/src/apps/host-desktop".into(),
            cargo_target_dir: None,
            cargo_build_target: None,
        },
        ".exe",
    )
    .expect("workspace layout should resolve");

    assert_eq!(layout.kind, RuntimeLayoutKind::Workspace);
    assert_eq!(layout.root, "/src");
    assert_eq!(
        PathBuf::from(&layout.plugin_paths.control_fallback),
        PathBuf::from("/src/target/debug/plugin-control-window-bridge.exe")
    );
    assert_eq!(
        layout.plugin_paths.grounding.map(PathBuf::from),
        Some(PathBuf::from("/src/target/debug/plugin-grounding-core.exe"))
    );
}

#[test]
fn locator_follows_relative_target_dir_and_build_target() {
    let layout = locate_runtime_layout(
        RuntimeLocatorInput {
            executable_path: "/src/out/x86_64-pc-windows-msvc/debug/host-desktop".into(),
            manifest_dir: "/src/apps/host-desktop".into(),
            cargo_target_dir: Some("out".into()),
            cargo_build_target: Some("x86_64-pc-windows-msvc".into()),
        },
        "",
    )
    .expect("workspace layout should resolve");
    assert_eq!(
        PathBuf::from(&layout.plugin_paths.capture_direct),
        PathBuf::from("/src/out/x86_64-pc-windows-msvc/debug/plugin-capture-direct")
    );

    let absolute = locate_runtime_layout(
        RuntimeLocatorInput {
            executable_path: "/elsewhere/debug/host-desktop".into(),
            manifest_dir: "/src/apps/host-desktop".into(),
            cargo_target_dir: Some("/elsewhere".into()),
            cargo_build_target: None,
        },
        "",
    )
    .expect("workspace layout should resolve");
    assert_eq!(
        PathBuf::from(&absolute.plugin_paths.capture),
        PathBuf::from("/elsewhere/debug/plugin-capture-window")
    );
}

#[test]
fn locator_reports_missing_directories() {
    let no_parent = locate_runtime_layout(
        RuntimeLocatorInput {
            executable_path: "".into(),
            manifest_dir: "/src/apps/host-desktop".into(),
            cargo_target_dir: None,
            cargo_build_target: None,
        },
        "",
    );
    assert_eq!(no_parent, Err(LocateError::ExecutableHasNoParent));

    let no_workspace = locate_runtime_layout(
        RuntimeLocatorInput {
            executable_path: "/tmp/host-desktop".into(),
            manifest_dir: "/".into(),
            cargo_target_dir: None,
            cargo_build_target: None,
        },
        "",
    );
    assert_eq!(no_workspace, Err(LocateError::WorkspaceRootMissing));
}

#[test]
fn host_log_file_is_named_after_launch_and_process() {
    assert_eq!(
        HostLogWriter::file_name(1234567890123456789012, 42),
        "host-desktop-1234567890123456789012-42.log"
    );
    assert_eq!(HostLogWriter::launch_line(7), "host-desktop launch pid=7");
    let writer =
        HostLogWriter::from_preferences_path("/tmp/app/ios-control/host-preferences.json", 5, 9);
    assert_eq!(
        PathBuf::from(writer.path),
        PathBuf::from("/tmp/app/ios-control/logs/host-desktop-5-9.log")
    );
}

/// The workspace of the repository launches: its manifest directory is two
/// levels inside it.
const WORKSPACE_ROOT: &str = "/work/ios-control";
const MANIFEST_DIR: &str = "/work/ios-control/apps/host-desktop";

/// A bundle root as the release packages are unpacked.
fn bundle_root() -> PathBuf {
    PathBuf::from("/tmp/unpacked/ios-control-x86_64-pc-windows-msvc")
}

fn target_dir(root: &str) -> PathBuf {
    PathBuf::from(root).join("target")
}

fn text(p: &std::path::Path) -> String {
    p.display().to_string()
}

fn bundle_input() -> RuntimeLocatorInput {
    let host_exe = bundle_root().join("bin").join("host-desktop");
    RuntimeLocatorInput {
        executable_path: text(&host_exe),
        manifest_dir: MANIFEST_DIR.into(),
        cargo_target_dir: None,
        cargo_build_target: None,
    }
}

fn workspace_input() -> RuntimeLocatorInput {
    let exe = target_dir(WORKSPACE_ROOT).join("debug/host-desktop");
    RuntimeLocatorInput {
        executable_path: text(&exe),
        manifest_dir: MANIFEST_DIR.into(),
        cargo_target_dir: None,
        cargo_build_target: None,
    }
}

#[test]
fn locator_prefers_bundle_layout_from_executable_path() {
    let layout = locate_runtime_layout(bundle_input(), "")
        .expect("bundle layout should resolve");
    let plugins_dir = bundle_root().join("plugins");

    assert_eq!(layout.kind, RuntimeLayoutKind::Bundle);
    assert_eq!(
        PathBuf::from(&layout.plugin_paths.capture),
        plugins_dir.join("plugin-capture-window")
    );
    assert_eq!(
        PathBuf::from(&layout.plugin_paths.control_ble),
        plugins_dir.join("plugin-control-ble")
    );
}

#[test]
fn locator_uses_workspace_target_layout_for_repo_launches() {
    let root = WORKSPACE_ROOT;
    let layout = locate_runtime_layout(workspace_input(), "")
        .expect("workspace layout should resolve");

    assert_eq!(layout.kind, RuntimeLayoutKind::Workspace);
    assert_eq!(
        PathBuf::from(&layout.plugin_paths.control_fallback),
        target_dir(root).join("debug/plugin-control-window-bridge")
    );
}

fn helper<'a>(helpers: &'a [(String, String)], key: &str) -> Option<&'a String> {
    helpers.iter().find(|(k, _)| k == key).map(|(_, v)| v)
}

#[test]
fn locator_resolves_direct_capture_plugin_for_bundle_and_workspace_layouts() {
    let bundle = locate_runtime_layout(bundle_input(), "")
        .expect("bundle layout should resolve");

    assert_eq!(
        PathBuf::from(&bundle.plugin_paths.capture_direct),
        bundle_root()
            .join("plugins")
            .join("plugin-capture-direct")
    );
    assert_eq!(
        helper(&bundle.helper_paths, "direct_runtime_root")
            .map(PathBuf::from)
            .expect("bundle direct runtime root should be recorded"),
        bundle_root()
            .join("runtime")
            .join("uxplay")
            .join("x86_64-pc-windows-msvc")
    );

    let root = WORKSPACE_ROOT;
    let workspace = locate_runtime_layout(workspace_input(), "")
        .expect("workspace layout should resolve");

    assert_eq!(
        PathBuf::from(&workspace.plugin_paths.capture_direct),
        target_dir(root).join("debug/plugin-capture-direct")
    );
    assert_eq!(
        helper(&workspace.helper_paths, "direct_runtime_root")
            .expect("workspace direct runtime root should be recorded"),
        workspace
            .plugin_paths
            .capture_direct_runtime_root
            .as_ref()
            .expect("workspace plugin paths should carry direct runtime root")
    );
}

#[test]
fn bundle_not_named_for_a_target_records_no_runtime_root() {
    let layout = locate_runtime_layout(
        RuntimeLocatorInput {
            executable_path: "/opt/ios-control/bin/host-desktop".into(),
            manifest_dir: "/src/apps/host-desktop".into(),
            cargo_target_dir: None,
            cargo_build_target: None,
        },
        "",
    )
    .expect("bundle layout should resolve");
    assert!(layout.helper_paths.is_empty());
    assert_eq!(layout.plugin_paths.capture_direct_runtime_root, None);
}

#[test]
fn locator_accepts_empty_target_dir_and_absolute_build_target() {
    let layout = locate_runtime_layout(
        RuntimeLocatorInput {
            executable_path: "/src/target/debug/host-desktop".into(),
            manifest_dir: "/src/apps/host-desktop".into(),
            cargo_target_dir: Some("".into()),
            cargo_build_target: Some("/abs/build".into()),
        },
        "",
    )
    .expect("workspace layout should resolve");
    let expected = PathBuf::from("/src").join("").join("/abs/build").join("debug");
    assert_eq!(
        PathBuf::from(&layout.plugin_paths.capture),
        expected.join("plugin-capture-window")
    );
    assert_eq!(
        layout.plugin_paths.capture_direct_runtime_root.map(PathBuf::from),
        Some(PathBuf::from("/src/runtime/uxplay"))
    );
}

#[test]
fn layout_from_parts_follows_the_path_answers() {
    let input = RuntimeLocatorInput {
        executable_path: "/a/bin/host".into(),
        manifest_dir: "/w/apps/host".into(),
        cargo_target_dir: None,
        cargo_build_target: None,
    };
    let parts = |dir: Option<&str>, name: Option<&str>, root: Option<&str>, ws: Option<&str>| LocatorParts {
        executable_dir: dir.map(str::to_string),
        executable_dir_name: name.map(str::to_string),
        bundle_root: root.map(str::to_string),
        bundle_root_name: None,
        manifest_parent: Some("/w/apps".into()),
        workspace_root: ws.map(str::to_string),
        target_dir_absolute: false,
    };
    assert_eq!(
        layout_from_parts(&input, "", &parts(None, None, None, Some("/w"))),
        Err(LocateError::ExecutableHasNoParent)
    );
    assert_eq!(
        layout_from_parts(&input, "", &parts(Some("/a/bin"), Some("bin"), None, Some("/w"))),
        Err(LocateError::BundleRootMissing)
    );
    assert_eq!(
        layout_from_parts(&input, "", &parts(Some("/a/bin"), Some("bins"), Some("/a"), None)),
        Err(LocateError::WorkspaceRootMissing)
    );
    let bundle = layout_from_parts(&input, "", &parts(Some("/a/bin"), Some("bin"), Some("/a"), None))
        .expect("bundle");
    assert_eq!(bundle.kind, RuntimeLayoutKind::Bundle);
    assert_eq!(bundle.root, "/a");
    let workspace = layout_from_parts(&input, "", &parts(Some("/a/x"), Some("x"), Some("/a"), Some("/w")))
        .expect("workspace");
    assert_eq!(workspace.kind, RuntimeLayoutKind::Workspace);
    assert_eq!(workspace.root, "/w");
}
