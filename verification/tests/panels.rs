use host_desktop::panels::dashboard::{join_texts, row_label};
use host_desktop::panels::startup::{direct_receiver_line, item_line};
use host_desktop::view_models::fleet::FleetRow;
use host_desktop::view_models::startup::{DirectReceiverViewModel, StartupItem, StartupReadiness};
use host_desktop::bootstrap::capability_probe::{startup_from_probes, StartupProbes};
use host_desktop::protocol::{CaptureCapability, ControlCapability};

fn row(action: Option<&str>, active: bool) -> FleetRow {
    FleetRow {
        device_id: "device-1".into(),
        device_name: "Alpha".into(),
        evidence_badges: vec!["Bluetooth".into(), "Known".into()],
        readiness_summary: "Ready".into(),
        start_enabled: true,
        operator_action: action.map(str::to_string),
        active_session: active,
    }
}

#[test]
fn dashboard_label_lists_badges_and_readiness() {
    assert_eq!(row_label(&row(None, false), None), "Alpha | Bluetooth, Known | Ready");
}

#[test]
fn dashboard_label_marks_action_activity_and_selection() {
    assert_eq!(
        row_label(&row(Some("reconnect"), true), Some("device-1")),
        "Alpha | Bluetooth, Known | Ready | action required | active | selected"
    );
    assert_eq!(
        row_label(&row(None, true), Some("device-2")),
        "Alpha | Bluetooth, Known | Ready | active"
    );
}

#[test]
fn joined_texts_put_the_separator_between_parts_only() {
    assert_eq!(join_texts(&Vec::new(), ", "), "");
    assert_eq!(join_texts(&vec!["a".to_string()], ", "), "a");
    assert_eq!(join_texts(&vec!["a".to_string(), "b".to_string(), "c".to_string()], "/"), "a/b/c");
}

#[test]
fn startup_lines_show_status_and_detail() {
    let item = StartupItem {
        label: "BLE Control".into(),
        status: "Ready".into(),
        detail: "control.ble | ble-hid".into(),
    };
    assert_eq!(item_line(&item), "BLE Control | Ready | control.ble | ble-hid");
    let receiver = DirectReceiverViewModel {
        available: false,
        status: "Missing".into(),
        detail: "plugins/capture-direct".into(),
    };
    assert_eq!(direct_receiver_line(&receiver), "Direct Receiver | Missing | plugins/capture-direct");
}

fn plugin_paths() -> host_desktop::bootstrap::model::PluginPaths {
    host_desktop::bootstrap::model::PluginPaths {
        capture: "/p/capture".into(),
        capture_direct: "/p/direct".into(),
        capture_direct_runtime_root: None,
        control_ble: "/p/ble".into(),
        control_fallback: "/p/bridge".into(),
        grounding: Some("/p/grounding".into()),
    }
}

#[test]
fn startup_pane_labels_each_plugin_from_its_own_probe() {
    let startup = startup_from_probes(
        &plugin_paths(),
        StartupProbes {
            capture_exists: true,
            capture_probe: Some(Ok(CaptureCapability {
                backend_id: "capture.window".into(),
                available: true,
                reason: None,
            })),
            capture_sources: Some(Ok(2)),
            direct_exists: false,
            direct_probe: None,
            ble_exists: true,
            ble_probe: Some(Err("no adapter".into())),
            bridge_exists: true,
            bridge_probe: Some(Ok(ControlCapability {
                backend_id: "control.window-bridge".into(),
                transport: "WindowBridge".into(),
                supported: true,
                reason: None,
            })),
            grounding_exists: false,
        },
    );
    let lines: Vec<String> = startup.items.iter().map(item_line).collect();
    assert_eq!(
        lines,
        vec![
            "Window Capture | Ready | capture.window | 2 sources discovered".to_string(),
            "BLE Control | Error | control probe failed: no adapter".to_string(),
            "Window Input Bridge | Ready | WindowBridge | helper ready".to_string(),
            "Grounding | Missing | /p/grounding".to_string(),
        ]
    );
    assert_eq!(startup.direct_receiver.status, "Missing");
    assert_eq!(startup.readiness, StartupReadiness::Ready);
    assert_eq!(startup.summary, "Ready: runtime components resolved");
}
