use host_desktop::app::requests::{CaptureBackendChoice, RuntimeRequest, StartPurpose, StartRequest};
use host_desktop::app::detail::first_reason_or_default;
use host_desktop::app::HostDesktopApp;
use host_desktop::inventory::aggregator::aggregate_inventory;
use host_desktop::inventory::model::{
    CapabilityState, DeviceObservation, InventoryEvidenceSource, InventorySnapshot,
};
use host_desktop::preferences::HostPreferences;
use host_desktop::protocol::{
    BackendSelection, ControlInputEvent, ControlSessionPhase, DeviceSessionStatus,
    DeviceSessionSummary, ExecutionSummary, MouseInputReport, PluginHealth, SessionDiagnostics,
    SessionPhase, SessionSubstate, SourceKind, VideoSource,
};
use host_desktop::runtime::{HostRuntimeSnapshot, RuntimeWorkspaceState};
use host_desktop::view_models::session::SessionUiState;
use host_desktop::view_models::startup::StartupViewModel;

fn status(
    device_id: &str,
    device_name: &str,
    phase: SessionPhase,
    substate: SessionSubstate,
    capture_backend: &str,
    control_backend: &str,
    operator_action: Option<&str>,
) -> DeviceSessionStatus {
    DeviceSessionStatus {
        summary: DeviceSessionSummary {
            device_id: device_id.into(),
            device_name: device_name.into(),
            phase,
            plugin_health: if phase == SessionPhase::Degraded {
                PluginHealth::Degraded
            } else {
                PluginHealth::Healthy
            },
            capture_plugin: Some(capture_backend.into()),
            control_plugin: Some(control_backend.into()),
            grounding_plugin: Some("grounding.core".into()),
        },
        substate,
        backends: BackendSelection {
            capture_backend: capture_backend.into(),
            control_backend: control_backend.into(),
        },
        operator_action: operator_action.map(str::to_string),
    }
}

fn summary_of(status: &DeviceSessionStatus) -> DeviceSessionSummary {
    DeviceSessionSummary {
        device_id: status.summary.device_id.clone(),
        device_name: status.summary.device_name.clone(),
        phase: status.summary.phase,
        plugin_health: status.summary.plugin_health,
        capture_plugin: status.summary.capture_plugin.clone(),
        control_plugin: status.summary.control_plugin.clone(),
        grounding_plugin: status.summary.grounding_plugin.clone(),
    }
}

fn snapshot_for(
    status: DeviceSessionStatus,
    source_id: &str,
    source_name: &str,
    kind: SourceKind,
    control_phase: ControlSessionPhase,
    control_summary: &str,
    grounding_summary: &str,
) -> HostRuntimeSnapshot {
    let summary = summary_of(&status);
    HostRuntimeSnapshot {
        workspace: RuntimeWorkspaceState {
            device_id: status.summary.device_id.clone(),
            summary,
            capture_sources: vec![VideoSource {
                source_id: source_id.into(),
                display_name: source_name.into(),
                kind,
            }],
            capture_stream: None,
            capture_status: None,
            latest_frame: None,
            selected_source_id: Some(source_id.into()),
            control_checklist: vec!["Pair the device".into()],
            control_phase,
            execution_observed_change: Some(true),
            diagnostics: SessionDiagnostics {
                control_phase,
                control_summary: control_summary.into(),
                grounding_summary: Some(grounding_summary.into()),
            },
        },
        statuses: vec![status],
    }
}

fn streaming_snapshot_without_frame() -> HostRuntimeSnapshot {
    snapshot_for(
        status(
            "device-1",
            "Alpha",
            SessionPhase::Streaming,
            SessionSubstate::Streaming,
            "capture.window.helper",
            "control.ble",
            None,
        ),
        "window-helper-1",
        "Operator Mirror",
        SourceKind::Window,
        ControlSessionPhase::Connected,
        "control ready",
        "selected pointer plan",
    )
}

fn direct_waiting_snapshot_without_frame() -> HostRuntimeSnapshot {
    snapshot_for(
        status(
            "direct-receiver",
            "Direct Receiver",
            SessionPhase::Connecting,
            SessionSubstate::StartingCapture,
            "capture.direct",
            "control.ble",
            None,
        ),
        "direct-1",
        "Direct Receiver",
        SourceKind::DirectReceiver,
        ControlSessionPhase::Connected,
        "control ready",
        "waiting for mirror",
    )
}

fn runtime_snapshot_with_control(
    control_phase: ControlSessionPhase,
    control_summary: &str,
    execution_observed_change: Option<bool>,
) -> HostRuntimeSnapshot {
    let mut snapshot = snapshot_for(
        status(
            "device-1",
            "Alpha",
            SessionPhase::Degraded,
            SessionSubstate::OperatorActionRequired,
            "capture.window.helper",
            "control.ble",
            Some("Reconnect BLE helper"),
        ),
        "window-helper-1",
        "Operator Mirror",
        SourceKind::Window,
        control_phase,
        control_summary,
        "selected pointer plan",
    );
    snapshot.workspace.execution_observed_change = execution_observed_change;
    snapshot
}

fn bluetooth_inventory_snapshot() -> InventorySnapshot {
    aggregate_inventory(vec![DeviceObservation {
        provider: InventoryEvidenceSource::Bluetooth,
        stable_id: Some("bt:AA-BB".into()),
        known_device_id: None,
        display_name: "Alice iPhone".into(),
        mirror_source_id: None,
        live: true,
        capture_state: CapabilityState::Unavailable,
        preferred_control_state: CapabilityState::Ready,
        fallback_control_state: CapabilityState::Unavailable,
        reasons: vec!["paired over bluetooth".into()],
    }])
}

fn empty_inventory() -> InventorySnapshot {
    InventorySnapshot { devices: Vec::new() }
}

fn app_with_runtime_without_active_session() -> HostDesktopApp {
    HostDesktopApp::with_runtime(
        StartupViewModel::blocked("Blocked: no usable device path yet"),
        empty_inventory(),
        None,
    )
}

/// Runs the runtime requests as a host whose runtime has no session for any
/// device would: every refresh fails.
fn fail_pending_refreshes(app: &mut HostDesktopApp) {
    for request in app.take_requests() {
        if let RuntimeRequest::Refresh(device_id) = request {
            app.finish_refresh_session(&device_id, Err("session not found".to_string()));
        }
    }
}

#[test]
fn host_app_without_runtime_reports_runtime_unavailable() {
    let mut app = HostDesktopApp::new();

    app.request_start_session();
    assert_eq!(
        app.session.ui_state,
        SessionUiState::Error("Host runtime unavailable".into())
    );
    assert!(app.session.selected_source.is_none());
    assert!(app.session.latest_frame.is_none());
    assert_eq!(app.device_detail.active_source_id, None);
    assert_eq!(
        app.diagnostics.host_error.as_deref(),
        Some("Host runtime unavailable")
    );
    assert_eq!(app.diagnostics.control_summary, "control blocked");
    assert_eq!(app.diagnostics.grounding_summary, "grounding blocked");

    app.stop_session();
    assert_eq!(app.session.ui_state, SessionUiState::Idle);
    assert!(app.session.selected_source.is_none());
    assert!(app.session.latest_frame.is_none());
    assert_eq!(app.device_detail.active_source_id, None);
    assert_eq!(app.diagnostics.control_summary, "control not started");
    assert_eq!(app.diagnostics.grounding_summary, "grounding idle");
}

#[test]
fn host_app_without_runtime_stays_unavailable_even_without_capture_sources() {
    let mut app = HostDesktopApp::new();
    app.device_detail.capture_sources.clear();

    app.request_start_session();

    assert_eq!(
        app.session.ui_state,
        SessionUiState::Error("Host runtime unavailable".into())
    );
    assert!(app.session.selected_source.is_none());
    assert!(app.session.latest_frame.is_none());
    assert_eq!(
        app.diagnostics.host_error.as_deref(),
        Some("Host runtime unavailable")
    );
    assert!(app.diagnostics.control_summary.contains("blocked"));
    assert!(app.diagnostics.grounding_summary.contains("blocked"));
}

#[test]
fn start_session_without_runtime_with_selected_device_reports_runtime_unavailable() {
    let mut app = HostDesktopApp::new();
    app.select_device("device-1");

    app.request_start_session();

    assert_eq!(
        app.session.ui_state,
        SessionUiState::Error("Host runtime unavailable".into())
    );
}

#[test]
fn runtime_snapshot_preserves_control_phase_and_observed_change() {
    let snapshot = runtime_snapshot_with_control(
        ControlSessionPhase::Advertising,
        "Waiting for iPhone",
        Some(true),
    );

    assert_eq!(snapshot.workspace.control_phase, ControlSessionPhase::Advertising);
    assert_eq!(snapshot.workspace.execution_observed_change, Some(true));
}

#[test]
fn host_app_surfaces_reconnect_guidance_for_degraded_control() {
    let mut app = HostDesktopApp::new();
    app.apply_runtime_snapshot(runtime_snapshot_with_control(
        ControlSessionPhase::Error,
        "Reconnect BLE helper",
        Some(false),
    ));

    assert!(app.diagnostics.control_summary.contains("Reconnect BLE helper"));
}

#[test]
fn startup_with_selected_device_attempts_start_and_reports_runtime_unavailable() {
    let mut app = HostDesktopApp::new();
    app.select_device("device-1");

    app.start_runtime_session_on_launch();

    assert_eq!(app.selected_device_id.as_deref(), Some("device-1"));
    assert_eq!(
        app.session.ui_state,
        SessionUiState::Error("Host runtime unavailable".into())
    );
}

#[test]
fn app_tracks_selected_workspace_separately_from_fleet_rows() {
    let mut app = HostDesktopApp::new();
    app.selected_device_id = Some("device-2".into());
    app.available_device_ids = vec!["device-1".into(), "device-2".into()];

    assert_eq!(app.selected_device_id.as_deref(), Some("device-2"));
    assert_eq!(app.available_device_ids.len(), 2);
}

#[test]
fn selecting_a_device_updates_workspace_and_operator_error() {
    let mut app = HostDesktopApp::new();
    app.replace_runtime_statuses(vec![
        status(
            "device-1",
            "Alpha",
            SessionPhase::Streaming,
            SessionSubstate::ControlReady,
            "capture.window.helper",
            "control.ble",
            None,
        ),
        status(
            "device-2",
            "Beta",
            SessionPhase::Degraded,
            SessionSubstate::OperatorActionRequired,
            "capture.window.helper",
            "control.window-bridge",
            Some("reconnect mirror helper"),
        ),
    ]);

    app.select_device("device-2");

    assert_eq!(app.selected_device_id.as_deref(), Some("device-2"));
    assert_eq!(app.device_detail.device_name, "Beta");
    assert_eq!(
        app.session.ui_state,
        SessionUiState::Error("reconnect mirror helper".into())
    );
    assert_eq!(
        app.diagnostics.host_error.as_deref(),
        Some("reconnect mirror helper")
    );
    assert!(app
        .diagnostics
        .control_summary
        .contains("control.window-bridge"));
}

#[test]
fn transient_bluetooth_inventory_rows_age_out_after_repeated_misses() {
    let mut app = HostDesktopApp::new();
    app.apply_inventory_snapshot(bluetooth_inventory_snapshot());

    for _ in 0..host_desktop::app::INVENTORY_MISSED_REFRESH_GRACE {
        app.apply_inventory_snapshot(empty_inventory());
        assert_eq!(app.available_device_ids, vec!["bt:AA-BB"]);
    }

    app.apply_inventory_snapshot(empty_inventory());

    assert!(app.available_device_ids.is_empty());
    assert!(app.fleet.rows.is_empty());
}

#[test]
fn runtime_refresh_attempts_are_throttled_to_poll_interval() {
    let mut app = app_with_runtime_without_active_session();
    app.apply_runtime_snapshot(streaming_snapshot_without_frame());

    let start: u64 = 1_000_000;
    app.poll_runtime_refresh_if_due(start);
    fail_pending_refreshes(&mut app);
    assert!(app
        .diagnostics
        .host_error
        .as_deref()
        .is_some_and(|error| error.contains("Runtime refresh failed")));

    app.diagnostics.host_error = None;
    app.poll_runtime_refresh_if_due(start + 10);
    fail_pending_refreshes(&mut app);
    assert_eq!(app.diagnostics.host_error, None);

    app.poll_runtime_refresh_if_due(start + host_desktop::app::RUNTIME_REFRESH_POLL_INTERVAL_MS + 1);
    fail_pending_refreshes(&mut app);
    assert!(app
        .diagnostics
        .host_error
        .as_deref()
        .is_some_and(|error| error.contains("Runtime refresh failed")));
}

#[test]
fn direct_waiting_for_first_frame_uses_slower_refresh_interval() {
    let mut app = app_with_runtime_without_active_session();
    app.apply_runtime_snapshot(direct_waiting_snapshot_without_frame());

    let start: u64 = 1_000_000;
    app.poll_runtime_refresh_if_due(start);
    fail_pending_refreshes(&mut app);
    assert!(app
        .diagnostics
        .host_error
        .as_deref()
        .is_some_and(|error| error.contains("Runtime refresh failed")));

    app.diagnostics.host_error = None;
    app.poll_runtime_refresh_if_due(start + host_desktop::app::RUNTIME_REFRESH_POLL_INTERVAL_MS * 2);
    fail_pending_refreshes(&mut app);
    assert_eq!(app.diagnostics.host_error, None);

    app.poll_runtime_refresh_if_due(
        start + host_desktop::app::WAITING_FOR_MIRROR_REFRESH_POLL_INTERVAL_MS + 1,
    );
    fail_pending_refreshes(&mut app);
    assert!(app
        .diagnostics
        .host_error
        .as_deref()
        .is_some_and(|error| error.contains("Runtime refresh failed")));
}

#[test]
fn start_with_runtime_asks_the_runtime_and_shows_the_session() {
    let mut app = app_with_runtime_without_active_session();
    app.select_device("device-1");
    app.request_start_session();

    assert_eq!(app.session.ui_state, SessionUiState::Starting);
    assert_eq!(app.diagnostics.control_summary, "control bootstrapping");
    let requests = app.take_requests();
    assert_eq!(requests.len(), 1);
    let request = match requests.into_iter().next() {
        Some(RuntimeRequest::Start(request)) => request,
        other => panic!("expected a start request, got {other:?}"),
    };
    assert_eq!(request.device_id, "device-1");
    assert_eq!(request.backend, CaptureBackendChoice::Window);

    app.finish_start_session(request, Ok(streaming_snapshot_without_frame()));

    assert_eq!(app.session.ui_state, SessionUiState::Streaming);
    assert_eq!(app.device_detail.device_name, "Alpha");
    assert_eq!(app.diagnostics.session_start_successes, 1);
    assert_eq!(app.preferences.selected_device_id.as_deref(), Some("device-1"));
    assert_eq!(app.preferences.selected_source_id.as_deref(), Some("window-helper-1"));
    assert_eq!(app.preferences.known_devices.len(), 1);
    assert_eq!(app.preferences.known_devices[0].known_device_id, "device-1");
    assert!(app.take_preferences_changed());
    assert!(app.take_inventory_refresh_request());
    assert!(app.session.can_stop());
}

#[test]
fn stale_restored_source_is_retried_once_without_it() {
    let mut preferences = HostPreferences::default();
    preferences.selected_device_id = Some("device-1".into());
    preferences.selected_source_id = Some("window-old".into());
    let mut app = HostDesktopApp::with_runtime_and_preferences(
        StartupViewModel::blocked("Blocked: no usable device path yet"),
        empty_inventory(),
        preferences,
        "/tmp/app/ios-control/host-preferences.json",
        Ok(()),
        empty_inventory(),
        None,
    );
    assert_eq!(app.selected_device_id.as_deref(), Some("device-1"));
    assert!(app.take_direct_preview_config_change());

    app.request_start_session();
    let request = match app.take_requests().into_iter().next() {
        Some(RuntimeRequest::Start(request)) => request,
        other => panic!("expected a start request, got {other:?}"),
    };
    assert_eq!(request.source_id.as_deref(), Some("window-old"));

    app.finish_start_session(
        request,
        Err("requested capture source window-old is unavailable".to_string()),
    );
    let retry = match app.take_requests().into_iter().next() {
        Some(RuntimeRequest::Start(request)) => request,
        other => panic!("expected a retried start, got {other:?}"),
    };
    assert_eq!(retry.source_id, None);
    assert!(matches!(
        retry.purpose,
        StartPurpose::Selected { retried: true, .. }
    ));
    assert_eq!(app.preferences.selected_source_id, None);

    app.finish_start_session(
        retry,
        Err("requested capture source window-old is unavailable".to_string()),
    );
    assert!(app.take_requests().is_empty());
    assert_eq!(
        app.session.ui_state,
        SessionUiState::Error("requested capture source window-old is unavailable".into())
    );
    assert_eq!(app.diagnostics.session_start_failures, 1);
}

#[test]
fn stop_session_asks_the_runtime_and_drops_the_session() {
    let mut app = app_with_runtime_without_active_session();
    app.apply_runtime_snapshot(streaming_snapshot_without_frame());
    assert_eq!(app.available_device_ids, vec!["device-1"]);

    app.stop_session();

    let requests = app.take_requests();
    assert_eq!(requests, vec![RuntimeRequest::Stop("device-1".into())]);
    assert!(app.available_device_ids.is_empty());
    assert!(app.fleet.rows.is_empty());
    assert!(app.selected_device_id.is_none());
    assert_eq!(app.session.ui_state, SessionUiState::Idle);
    assert!(!app.session_window_is_visible());
}

#[test]
fn selecting_a_capture_source_updates_detail_and_preferences() {
    let mut app = HostDesktopApp::new();
    app.apply_runtime_snapshot(streaming_snapshot_without_frame());

    app.select_capture_source("window-helper-1");
    assert_eq!(
        app.device_detail.active_source_id.as_deref(),
        Some("window-helper-1")
    );
    assert_eq!(
        app.preferences.selected_source_id.as_deref(),
        Some("window-helper-1")
    );
    assert!(!app.session.start_enabled);

    app.select_capture_source("missing-source");
    assert_eq!(
        app.device_detail.active_source_id.as_deref(),
        Some("window-helper-1")
    );
}

#[test]
fn settings_clamp_and_log_their_values() {
    let mut app = HostDesktopApp::new();
    app.set_ble_pointer_long_axis_units(Some(5000));
    assert_eq!(app.preferences.ble_pointer_long_axis_units, Some(1600));
    app.set_direct_preview_fps(Some(1));
    assert_eq!(app.preferences.direct_preview_fps, Some(5));
    app.set_direct_preview_height(None);
    assert_eq!(app.preferences.direct_preview_height, None);
    assert!(app.take_preferences_changed());
    assert!(app.take_direct_preview_config_change());
}

#[test]
fn log_lines_reach_the_host_log_once_it_is_open() {
    let mut app = HostDesktopApp::with_runtime_and_preferences(
        StartupViewModel::blocked("Blocked: nothing probed"),
        empty_inventory(),
        HostPreferences::default(),
        "/tmp/app/ios-control/host-preferences.json",
        Ok(()),
        empty_inventory(),
        None,
    );
    let lines = app.take_log_lines();
    assert_eq!(
        lines,
        vec![
            "startup probe Blocked: nothing probed".to_string(),
            "inventory snapshot total=0 startable=0 blocked=0".to_string(),
            "inventory snapshot total=0 startable=0 blocked=0".to_string(),
        ]
    );
    app.set_direct_preview_fps(Some(30));
    assert_eq!(app.take_log_lines(), vec!["Direct preview FPS set to 30".to_string()]);
    assert_eq!(app.settings.rows.len(), 2);
}

#[test]
fn host_log_failure_is_recorded_in_diagnostics() {
    let app = HostDesktopApp::with_runtime_and_preferences(
        StartupViewModel::blocked("Blocked: nothing probed"),
        empty_inventory(),
        HostPreferences::default(),
        "/tmp/app/ios-control/host-preferences.json",
        Err("permission denied".to_string()),
        empty_inventory(),
        None,
    );
    assert!(app
        .diagnostics
        .log_lines
        .iter()
        .any(|line| line == "host log file unavailable: permission denied"));
    assert!(!app.log_writer_open);
}

#[test]
fn preview_input_is_forwarded_and_failures_stop_the_batch() {
    let mut app = app_with_runtime_without_active_session();
    app.apply_runtime_snapshot(streaming_snapshot_without_frame());
    let events = vec![
        ControlInputEvent::Mouse(MouseInputReport {
            buttons: 1,
            dx: -3,
            dy: 4,
            wheel: 0,
        }),
        ControlInputEvent::Text("hi".into()),
    ];
    app.forward_preview_input(events, false);
    let requests = app.take_requests();
    assert_eq!(requests.len(), 1);
    match &requests[0] {
        RuntimeRequest::Forward { device_id, events } => {
            assert_eq!(device_id, "device-1");
            assert_eq!(events.len(), 2);
        }
        other => panic!("expected a forward request, got {other:?}"),
    }

    app.finish_forward_input(
        "device-1",
        vec![
            Ok(ExecutionSummary {
                summary: "pointer moved".into(),
                phase: ControlSessionPhase::Connected,
            }),
            Err("link lost".into()),
            Ok(ExecutionSummary {
                summary: "never seen".into(),
                phase: ControlSessionPhase::Connected,
            }),
        ],
        false,
    );
    assert_eq!(app.diagnostics.control_summary, "pointer moved");
    assert_eq!(
        app.diagnostics.host_error.as_deref(),
        Some("Preview input failed for device-1: link lost")
    );
}

#[test]
fn preview_input_without_runtime_reports_failure() {
    let mut app = HostDesktopApp::new();
    app.select_device("device-1");
    app.forward_preview_input(vec![ControlInputEvent::Text("x".into())], false);
    assert!(app.take_requests().is_empty());
    assert_eq!(
        app.diagnostics.host_error.as_deref(),
        Some("Preview input failed: host runtime unavailable")
    );
}

#[test]
fn preview_input_summary_describes_each_event() {
    let events = vec![
        ControlInputEvent::Mouse(MouseInputReport {
            buttons: 1,
            dx: -3,
            dy: 4,
            wheel: -1,
        }),
        ControlInputEvent::MouseSequence(vec![MouseInputReport::default(); 7]),
        ControlInputEvent::Text("héllo".into()),
    ];
    let summary = host_desktop::app::input::preview_input_event_summary(&events);
    let report = "buttons=0 dx=0 dy=0 wheel=0";
    let expected = format!(
        "mouse buttons=1 dx=-3 dy=4 wheel=-1; mouse-sequence reports=7 [{r}, {r}, {r}, {r}, {r}, {r}, ...]; text chars=5",
        r = report
    );
    assert_eq!(summary, expected);
}

#[test]
fn direct_receiver_start_needs_an_available_receiver() {
    let mut app = app_with_runtime_without_active_session();
    assert!(!app.can_start_direct_receiver());
    app.request_start_direct_receiver();
    assert_eq!(
        app.session.ui_state,
        SessionUiState::Error("Direct receiver unavailable".into())
    );
    assert_eq!(app.selected_device_id.as_deref(), Some("direct-receiver"));
    assert!(app.take_requests().is_empty());
}

#[test]
fn pending_direct_receiver_start_waits_for_the_receiver() {
    let mut app = app_with_runtime_without_active_session();
    app.set_pending_start_device("direct-receiver");
    assert_eq!(app.pending_start_device_id.as_deref(), Some("direct-receiver"));
    assert!(app.take_requests().is_empty());

    app.startup.direct_receiver.available = true;
    app.apply_inventory_snapshot(empty_inventory());
    assert_eq!(app.pending_start_device_id, None);
    assert!(app.session_window_is_visible());
    let start = match app.take_requests().into_iter().next() {
        Some(RuntimeRequest::Start(request)) => request,
        other => panic!("expected a start request, got {other:?}"),
    };
    assert_eq!(start.device_id, "direct-receiver");
    assert_eq!(start.backend, CaptureBackendChoice::Direct);
    assert_eq!(start.purpose, StartPurpose::DirectReceiver);

    app.finish_start_session(start, Ok(direct_waiting_snapshot_without_frame()));
    assert_eq!(app.session.ui_state, SessionUiState::WaitingForMirror);
    assert!(!app.can_start_direct_receiver());
}

#[test]
fn start_request_for_unknown_source_keeps_request_shape() {
    let request = StartRequest {
        device_id: "device-1".into(),
        device_name: "Alpha".into(),
        source_id: None,
        backend: CaptureBackendChoice::Window,
        purpose: StartPurpose::DirectForDevice,
    };
    let mut app = app_with_runtime_without_active_session();
    app.finish_start_session(request, Err("no capture".into()));
    assert_eq!(
        app.session.ui_state,
        SessionUiState::Error("no capture".into())
    );
    assert_eq!(app.diagnostics.host_error.as_deref(), Some("no capture"));
}

#[test]
fn closing_the_session_window_forgets_its_device_and_fit() {
    let mut app = app_with_runtime_without_active_session();
    app.session_window_open = true;
    app.session_window_focus_requested = true;
    app.session_window_device_id = Some("device-1".into());
    app.session_window_auto_sized_frame = Some((1080, 1920, 0));

    assert!(app.take_session_window_focus_request());
    assert!(!app.take_session_window_focus_request());

    app.close_session_window();

    assert!(!app.session_window_is_visible());
    assert!(!app.session_window_focus_requested);
    assert_eq!(app.session_window_device_id, None);
    assert_eq!(app.session_window_auto_sized_frame, None);
}

#[test]
fn session_window_is_fitted_once_per_frame_shape() {
    let mut app = app_with_runtime_without_active_session();
    assert_eq!(app.session_window_frame_to_fit(), None);

    app.session.latest_frame = Some(host_desktop::protocol::VideoFrameDescriptor {
        source_id: "direct-1".into(),
        source_kind: SourceKind::DirectReceiver,
        width: 1080,
        height: 1920,
        rotation_degrees: 90,
        frame_index: 3,
        health: host_desktop::protocol::FrameHealth::Healthy,
    });

    assert_eq!(app.session_window_frame_to_fit(), Some((1080, 1920, 90)));
    assert!(app.take_session_window_resize_pending());
    assert!(!app.take_session_window_resize_pending());
    assert_eq!(app.session_window_frame_to_fit(), None);

    if let Some(frame) = app.session.latest_frame.as_mut() {
        frame.width = 1920;
        frame.height = 1080;
    }
    assert_eq!(app.session_window_frame_to_fit(), Some((1920, 1080, 90)));
}

/// Takes the one start request the host has for the runtime.
fn take_start_request(app: &mut HostDesktopApp) -> StartRequest {
    let mut requests = app.take_requests();
    assert_eq!(requests.len(), 1);
    match requests.remove(0) {
        RuntimeRequest::Start(request) => request,
        other => panic!("expected a start request, got {other:?}"),
    }
}

#[test]
fn host_app_start_session_forwards_selected_source_to_runtime() {
    let mut app = app_with_runtime_without_active_session();
    app.select_device("device-1");
    app.device_detail.capture_sources = vec![
        host_desktop::panels::device_detail::CaptureSourceOption::new("missing-source", "Broken Source"),
    ];
    app.device_detail.active_source_id = Some("missing-source".into());

    app.request_start_session();

    let request = take_start_request(&mut app);
    assert_eq!(request.source_id.as_deref(), Some("missing-source"));
    app.finish_start_session(request, Err("capture source missing-source unavailable".into()));

    match &app.session.ui_state {
        SessionUiState::Error(message) => {
            assert!(message.contains("missing-source"));
            assert!(message.contains("unavailable"));
        }
        other => panic!("expected runtime start failure, got {other:?}"),
    }
}

#[test]
fn selecting_a_capture_source_updates_device_detail_selection() {
    let mut app = app_with_runtime_without_active_session();
    app.select_device("device-1");
    app.request_start_session();
    let request = take_start_request(&mut app);
    app.finish_start_session(request, Ok(streaming_snapshot_without_frame()));

    app.select_capture_source("window-helper-1");

    assert_eq!(
        app.device_detail.active_source_id.as_deref(),
        Some("window-helper-1")
    );
}

#[test]
fn runtime_snapshot_populates_control_checklist_and_operator_message() {
    let mut app = app_with_runtime_without_active_session();
    app.select_device("device-1");
    app.request_start_session();
    let request = take_start_request(&mut app);
    app.finish_start_session(request, Ok(streaming_snapshot_without_frame()));

    assert_ne!(
        app.device_detail.control_checklist,
        host_desktop::panels::device_detail::ControlSetupChecklist::for_pointer_mode()
    );
    assert_ne!(app.diagnostics.control_summary, "control backend control.ble");
    assert!(app.diagnostics.control_summary.contains("control "));
}

#[test]
fn stop_session_clears_runtime_state_even_without_runtime_instance() {
    let mut app = HostDesktopApp::new();
    app.replace_runtime_statuses(vec![status(
        "device-1",
        "Alpha",
        SessionPhase::Streaming,
        SessionSubstate::Streaming,
        "capture.window.helper",
        "control.ble",
        None,
    )]);

    app.stop_session();

    assert!(app.available_device_ids.is_empty());
    assert!(app.fleet.rows.is_empty());
    assert_eq!(app.dashboard.total_devices, 0);
    assert_eq!(app.dashboard.degraded_devices, 0);
    assert!(app.settings.plugin_rows.is_empty());
    assert!(app.selected_device_id.is_none());
    assert_eq!(app.session.ui_state, SessionUiState::Idle);
}

#[test]
fn update_requests_polling_repaint_and_surfaces_refresh_errors() {
    let mut app = app_with_runtime_without_active_session();
    app.apply_runtime_snapshot(streaming_snapshot_without_frame());

    let target = app.selected_runtime_refresh_target();
    app.poll_refreshes(1_000_000);
    fail_pending_refreshes(&mut app);

    assert!(app
        .diagnostics
        .host_error
        .as_deref()
        .is_some_and(|error| error.contains("Runtime refresh failed")));
    let (device_id, interval) = target.expect("a streaming session asks for repaints");
    assert_eq!(device_id, "device-1");
    assert!(interval <= host_desktop::app::RUNTIME_REFRESH_POLL_INTERVAL_MS);
}

#[test]
fn inventory_refreshes_are_throttled_to_poll_interval() {
    let mut app = app_with_runtime_without_active_session();
    let start: u64 = 1_000;
    app.poll_inventory_refresh_if_due(start);
    assert!(app.take_inventory_refresh_request());

    app.poll_inventory_refresh_if_due(start + 1_500);
    assert!(!app.take_inventory_refresh_request());

    app.poll_inventory_refresh_if_due(start + host_desktop::app::INVENTORY_REFRESH_POLL_INTERVAL_MS);
    assert!(app.take_inventory_refresh_request());
}

fn device_with_reasons(reasons: Vec<&str>) -> host_desktop::inventory::model::InventoryDevice {
    let mut snapshot = aggregate_inventory(vec![DeviceObservation {
        provider: InventoryEvidenceSource::Bluetooth,
        stable_id: Some("bt:CC-DD".into()),
        known_device_id: None,
        display_name: "Carol iPhone".into(),
        mirror_source_id: None,
        live: true,
        capture_state: CapabilityState::Unavailable,
        preferred_control_state: CapabilityState::Ready,
        fallback_control_state: CapabilityState::Unavailable,
        reasons: reasons.into_iter().map(str::to_string).collect(),
    }]);
    snapshot.devices.remove(0)
}

#[test]
fn row_message_prefers_a_blocking_reason_in_sentence_case() {
    let device = device_with_reasons(vec!["Apple pairing ok", "Mirror MISSING"]);
    assert_eq!(first_reason_or_default(&device, "fallback"), "Mirror MISSING");

    let device = device_with_reasons(vec!["paired over bluetooth"]);
    assert_eq!(first_reason_or_default(&device, "fallback"), "Paired over bluetooth");

    let device = device_with_reasons(vec![]);
    assert_eq!(first_reason_or_default(&device, "fallback reason"), "Fallback reason");
}

#[test]
fn host_app_boots_into_an_honest_idle_session_shell() {
    let app = HostDesktopApp::new();

    assert_eq!(app.dashboard.total_devices, 1);
    assert_eq!(app.dashboard.degraded_devices, 0);
    assert_eq!(app.device_detail.device_name, "Mock iPhone");
    assert_eq!(
        app.device_detail.control_checklist,
        host_desktop::panels::device_detail::ControlSetupChecklist::for_pointer_mode()
    );
    assert_eq!(
        app.device_detail.capture_sources,
        vec![host_desktop::panels::device_detail::CaptureSourceOption::new(
            "window:mock",
            "Mock iPhone Mirror"
        )]
    );
    assert_eq!(app.session.ui_state, SessionUiState::Idle);
    assert!(app.session.selected_source.is_none());
    assert!(app.session.latest_frame.is_none());
    assert_eq!(app.diagnostics.host_error, None);
    assert_eq!(app.diagnostics.control_summary, "control not started");
    assert_eq!(app.diagnostics.grounding_summary, "grounding idle");
    assert!(app
        .settings
        .plugin_rows
        .iter()
        .any(|row| row.contains("control.ble")));
}

#[test]
fn app_syncs_runtime_statuses_into_fleet_and_workspace() {
    let mut app = HostDesktopApp::new();
    app.replace_runtime_statuses(vec![
        status(
            "device-1",
            "Alpha",
            SessionPhase::Streaming,
            SessionSubstate::ControlReady,
            "capture.window.helper",
            "control.ble",
            None,
        ),
        status(
            "device-2",
            "Beta",
            SessionPhase::Degraded,
            SessionSubstate::OperatorActionRequired,
            "capture.window.helper",
            "control.window-bridge",
            Some("reconnect mirror helper"),
        ),
    ]);

    assert_eq!(app.dashboard.total_devices, 2);
    assert_eq!(app.dashboard.degraded_devices, 1);
    assert_eq!(app.available_device_ids, vec!["device-1", "device-2"]);
    assert_eq!(app.selected_device_id.as_deref(), Some("device-1"));
    assert_eq!(app.fleet.rows.len(), 2);
    assert_eq!(app.device_detail.device_name, "Alpha");
    assert_eq!(app.session.ui_state, SessionUiState::Streaming);
    assert!(app.diagnostics.host_error.is_none());
    assert!(app
        .settings
        .plugin_rows
        .iter()
        .any(|row| row.contains("control.window-bridge")));
}

#[test]
fn host_app_stop_session_removes_runtime_status() {
    let mut app = app_with_runtime_without_active_session();
    app.select_device("device-1");
    app.request_start_session();
    let request = take_start_request(&mut app);
    app.finish_start_session(request, Ok(streaming_snapshot_without_frame()));

    app.stop_session();

    let requests = app.take_requests();
    assert!(requests
        .iter()
        .any(|r| matches!(r, RuntimeRequest::Stop(device_id) if device_id == "device-1")));
    assert!(app.available_device_ids.is_empty());
    assert_eq!(app.session.ui_state, SessionUiState::Idle);
}

#[test]
fn every_observation_lands_in_one_row_with_its_reasons() {
    let snapshot = aggregate_inventory(vec![
        DeviceObservation {
            provider: InventoryEvidenceSource::Mirror,
            stable_id: Some("bt:EE".into()),
            known_device_id: None,
            display_name: "Eve iPhone".into(),
            mirror_source_id: Some("window-1".into()),
            live: false,
            capture_state: CapabilityState::Ready,
            preferred_control_state: CapabilityState::Unavailable,
            fallback_control_state: CapabilityState::Ready,
            reasons: vec!["mirror window".into()],
        },
        DeviceObservation {
            provider: InventoryEvidenceSource::Bluetooth,
            stable_id: Some("bt:EE".into()),
            known_device_id: None,
            display_name: "Eve iPhone".into(),
            mirror_source_id: None,
            live: true,
            capture_state: CapabilityState::Unavailable,
            preferred_control_state: CapabilityState::Ready,
            fallback_control_state: CapabilityState::Unavailable,
            reasons: vec!["paired over bluetooth".into()],
        },
    ]);
    assert_eq!(snapshot.devices.len(), 1);
    let row = &snapshot.devices[0];
    assert!(row.live);
    assert!(row.evidence_sources.contains(&InventoryEvidenceSource::Bluetooth));
    assert!(row.evidence_sources.contains(&InventoryEvidenceSource::Mirror));
    assert!(row.reasons.contains(&"mirror window".to_string()));
    assert!(row.reasons.contains(&"paired over bluetooth".to_string()));
}

#[test]
fn signed_text_writes_the_smallest_value() {
    assert_eq!(host_desktop::app::input::signed_text(i64::MIN), "-9223372036854775808");
    assert_eq!(host_desktop::app::input::signed_text(-12), "-12");
    assert_eq!(host_desktop::app::input::signed_text(7), "7");
}
