//! The host's state machine: what the operator sees and what the host asks of
//! its session runtime, decided from the inventory, the runtime's reports and
//! the operator's actions.
//!
//! The host itself performs the outside work that the state machine asks for:
//! it runs the requests in [`HostDesktopApp::requests`] against the session
//! runtime and hands each result back, saves the preferences when
//! `preferences_changed` is set, collects a new inventory when
//! `inventory_refresh_requested` is set, and writes the lines of
//! `pending_log_lines` to the host log.
use vstd::prelude::*;
use crate::inventory::model::{device_views, opt_view, DeviceView, InventorySnapshot};
use crate::ordered::texts;
use crate::panels::device_detail::{pointer_mode_items, CaptureSourceOption, ControlSetupChecklist, SourceOptionView};
use crate::preferences::{HostPreferences, PreferencesView};
use crate::preview::{BridgeView, PreviewInputBridge};
use crate::protocol::DeviceSessionStatus;
use crate::runtime::RuntimeWorkspaceState;
use crate::view_models::dashboard::DashboardViewModel;
use crate::view_models::device_detail::{DetailView, DeviceDetailViewModel};
use crate::view_models::diagnostics::{DiagnosticsView, DiagnosticsViewModel};
use crate::view_models::fleet::{row_views, FleetRowView, FleetViewModel};
use crate::view_models::session::{idle_view, SessionView, SessionViewModel};
use crate::view_models::settings::SettingsViewModel;
use crate::view_models::startup::StartupViewModel;

pub mod actions;
pub mod detail;
pub mod input;
pub mod inventory;
pub mod launch;
pub mod laws;
pub mod missed;
pub mod navigation;
pub mod refresh;
pub mod requests;
pub mod settings;
pub mod start;
pub mod workspace;
pub mod window;

use missed::MissedRefreshes;
use requests::{request_views, RequestView, RuntimeRequest};

verus! {

/// How many inventory refreshes a live Bluetooth row may be missing from before
/// it leaves the inventory.
pub const INVENTORY_MISSED_REFRESH_GRACE: u8 = 3;

/// Milliseconds between two inventory refreshes.
pub const INVENTORY_REFRESH_POLL_INTERVAL_MS: u64 = 2000;

/// Milliseconds between two refreshes of a running session.
pub const RUNTIME_REFRESH_POLL_INTERVAL_MS: u64 = 40;

/// Milliseconds between two refreshes of a direct session that waits for its
/// first frame.
pub const WAITING_FOR_MIRROR_REFRESH_POLL_INTERVAL_MS: u64 = 250;

/// A capture source that the operator chose in an earlier run, waiting to be
/// used for the next start of that device.
#[derive(Debug, PartialEq, Eq)]
pub struct RestoredSourcePreference {
    pub device_id: String,
    pub source_id: String,
}

/// The host's state.
#[derive(Debug)]
pub struct HostDesktopApp {
    pub available_device_ids: Vec<String>,
    pub selected_device_id: Option<String>,
    pub fleet: FleetViewModel,
    pub inventory_snapshot: InventorySnapshot,
    pub inventory_missed_refreshes: MissedRefreshes,
    pub runtime_statuses: Vec<DeviceSessionStatus>,
    /// Whether the host has a session runtime to send requests to.
    pub runtime_available: bool,
    /// Whether the host was started with plugin paths, so that an inventory
    /// can be collected.
    pub runtime_configured: bool,
    pub runtime_workspace: Option<RuntimeWorkspaceState>,
    pub preferences: HostPreferences,
    pub restored_source_preference: Option<RestoredSourcePreference>,
    pub manual_source_selection_device_id: Option<String>,
    pub pending_start_device_id: Option<String>,
    /// When the next inventory refresh is due, in milliseconds of the host's
    /// clock.
    pub next_inventory_refresh_at: Option<u64>,
    /// When the next refresh of the running session is due.
    pub next_runtime_refresh_at: Option<u64>,
    pub runtime_refresh_device_id: Option<String>,
    pub preview_input_bridge: PreviewInputBridge,
    pub session_window_open: bool,
    pub session_window_deferred_until_streaming: bool,
    pub session_window_focus_requested: bool,
    pub session_window_device_id: Option<String>,
    /// The frame (width, height, rotation) that the session window was last
    /// sized to.
    pub session_window_auto_sized_frame: Option<(u32, u32, u16)>,
    pub session_window_resize_pending: bool,
    pub dashboard: DashboardViewModel,
    pub device_detail: DeviceDetailViewModel,
    pub session: SessionViewModel,
    pub diagnostics: DiagnosticsViewModel,
    pub settings: SettingsViewModel,
    pub startup: StartupViewModel,
    /// Runtime requests that the host has yet to run, oldest first.
    pub requests: Vec<RuntimeRequest>,
    /// Whether a host log file is open.
    pub log_writer_open: bool,
    /// Lines that the host has yet to append to its log file.
    pub pending_log_lines: Vec<String>,
    /// Whether the preferences changed since the host last saved them.
    pub preferences_changed: bool,
    /// Whether the host should collect a new inventory.
    pub inventory_refresh_requested: bool,
    /// Whether the direct preview settings changed since the host last handed
    /// them to the runtime.
    pub direct_preview_config_changed: bool,
}

/// The host's state, with its texts as characters.
pub struct AppView {
    pub available_device_ids: Seq<Seq<char>>,
    pub selected_device_id: Option<Seq<char>>,
    pub fleet: Seq<FleetRowView>,
    pub inventory: Seq<DeviceView>,
    pub missed: Map<Seq<char>, u8>,
    pub statuses: Seq<DeviceSessionStatus>,
    pub runtime_available: bool,
    pub runtime_configured: bool,
    pub workspace: Option<RuntimeWorkspaceState>,
    pub preferences: PreferencesView,
    pub restored: Option<(Seq<char>, Seq<char>)>,
    pub manual_source_device: Option<Seq<char>>,
    pub pending_start_device: Option<Seq<char>>,
    pub next_inventory_refresh_at: Option<u64>,
    pub next_runtime_refresh_at: Option<u64>,
    pub runtime_refresh_device: Option<Seq<char>>,
    pub bridge: BridgeView,
    pub window_open: bool,
    pub window_deferred: bool,
    pub window_focus: bool,
    pub window_device: Option<Seq<char>>,
    pub window_auto_sized: Option<(u32, u32, u16)>,
    pub window_resize_pending: bool,
    pub dashboard: DashboardViewModel,
    pub detail: DetailView,
    pub session: SessionView,
    pub diagnostics: DiagnosticsView,
    pub settings: Seq<Seq<char>>,
    pub plugin_rows: Seq<Seq<char>>,
    pub startup: StartupViewModel,
    pub requests: Seq<RequestView>,
    pub log_writer_open: bool,
    pub pending_log: Seq<Seq<char>>,
    pub preferences_changed: bool,
    pub inventory_refresh_requested: bool,
    pub preview_config_changed: bool,
}

/// The view of a restored source preference.
pub open spec fn restored_view(r: Option<RestoredSourcePreference>) -> Option<(Seq<char>, Seq<char>)> {
    match r {
        Some(p) => Some((p.device_id@, p.source_id@)),
        None => None,
    }
}

impl View for HostDesktopApp {
    type V = AppView;

    open spec fn view(&self) -> AppView {
        AppView {
            available_device_ids: texts(self.available_device_ids@),
            selected_device_id: opt_view(self.selected_device_id),
            fleet: row_views(self.fleet.rows@),
            inventory: device_views(self.inventory_snapshot.devices@),
            missed: self.inventory_missed_refreshes@,
            statuses: self.runtime_statuses@,
            runtime_available: self.runtime_available,
            runtime_configured: self.runtime_configured,
            workspace: self.runtime_workspace,
            preferences: self.preferences@,
            restored: restored_view(self.restored_source_preference),
            manual_source_device: opt_view(self.manual_source_selection_device_id),
            pending_start_device: opt_view(self.pending_start_device_id),
            next_inventory_refresh_at: self.next_inventory_refresh_at,
            next_runtime_refresh_at: self.next_runtime_refresh_at,
            runtime_refresh_device: opt_view(self.runtime_refresh_device_id),
            bridge: self.preview_input_bridge@,
            window_open: self.session_window_open,
            window_deferred: self.session_window_deferred_until_streaming,
            window_focus: self.session_window_focus_requested,
            window_device: opt_view(self.session_window_device_id),
            window_auto_sized: self.session_window_auto_sized_frame,
            window_resize_pending: self.session_window_resize_pending,
            dashboard: self.dashboard,
            detail: self.device_detail@,
            session: self.session@,
            diagnostics: self.diagnostics@,
            settings: texts(self.settings.rows@),
            plugin_rows: texts(self.settings.plugin_rows@),
            startup: self.startup,
            requests: request_views(self.requests@),
            log_writer_open: self.log_writer_open,
            pending_log: texts(self.pending_log_lines@),
            preferences_changed: self.preferences_changed,
            inventory_refresh_requested: self.inventory_refresh_requested,
            preview_config_changed: self.direct_preview_config_changed,
        }
    }
}

/// The runtime's statuses and workspace are as before.
pub open spec fn keeps_runtime(a: AppView, b: AppView) -> bool {
    b.statuses == a.statuses && b.workspace == a.workspace
}

/// The detail pane when no device is selected.
pub open spec fn no_device_detail() -> DetailView {
    DetailView {
        device_name: "No device selected"@,
        capture_sources: seq![],
        active_source_id: None,
        control_checklist: seq![],
        inventory_notes: seq![],
    }
}

/// A log line that the host log file receives as well, when it is open.
pub open spec fn with_log_line(s: AppView, line: Seq<char>) -> AppView {
    AppView {
        pending_log: if s.log_writer_open { s.pending_log.push(line) } else { s.pending_log },
        ..s
    }
}

/// The state of a host that has just started: nothing known, nothing
/// selected, nothing asked of the host, no runtime; the startup pane shows
/// `startup`, and the preview input has the environment's pointer scale.
pub open spec fn initial_state(startup: StartupViewModel, env_units: Option<u32>) -> AppView {
    AppView {
        available_device_ids: seq![],
        selected_device_id: None,
        fleet: seq![],
        inventory: seq![],
        missed: Map::empty(),
        statuses: seq![],
        runtime_available: false,
        runtime_configured: false,
        workspace: None,
        preferences: PreferencesView {
            selected_device_id: None,
            selected_source_id: None,
            ble_pointer_long_axis_units: None,
            direct_preview_fps: None,
            direct_preview_height: None,
            known_devices: seq![],
        },
        restored: None,
        manual_source_device: None,
        pending_start_device: None,
        next_inventory_refresh_at: None,
        next_runtime_refresh_at: None,
        runtime_refresh_device: None,
        bridge: BridgeView {
            armed: false,
            device_pointer: None,
            buttons: 0,
            pointer_long_axis_units: None,
            env_pointer_long_axis_units: env_units,
        },
        window_open: false,
        window_deferred: false,
        window_focus: false,
        window_device: None,
        window_auto_sized: None,
        window_resize_pending: false,
        dashboard: DashboardViewModel { total_devices: 0, degraded_devices: 0 },
        detail: no_device_detail(),
        session: idle_view(),
        diagnostics: DiagnosticsView {
            host_error: None,
            control_summary: "control not started"@,
            grounding_summary: "grounding idle"@,
            startup_probe_runs: 0,
            inventory_refreshes: 0,
            inventory_rows: 0,
            inventory_startable_rows: 0,
            inventory_blocked_rows: 0,
            session_start_attempts: 0,
            session_start_successes: 0,
            session_start_failures: 0,
            log_lines: seq![],
        },
        settings: seq![],
        plugin_rows: seq![],
        startup,
        requests: seq![],
        log_writer_open: false,
        pending_log: seq![],
        preferences_changed: false,
        inventory_refresh_requested: false,
        preview_config_changed: false,
    }
}

/// The demonstration shell that a host without a runtime opens into: one
/// mock iPhone on the dashboard, its mirror window as the capture source (none
/// chosen yet), the pointer-mode checklist, and the plugins of its mock
/// session; everything else as in
/// `s`.
pub open spec fn demo_shell(s: AppView) -> AppView {
    AppView {
        dashboard: DashboardViewModel { total_devices: 1, degraded_devices: 0 },
        detail: DetailView {
            device_name: "Mock iPhone"@,
            capture_sources: seq![SourceOptionView { source_id: "window:mock"@, display_name: "Mock iPhone Mirror"@ }],
            active_source_id: None,
            control_checklist: pointer_mode_items(),
            inventory_notes: seq![],
        },
        plugin_rows: seq!["Mock iPhone: capture.window.helper / control.ble"@],
        ..s
    }
}

/// The startup pane before any probe: blocked, with no direct receiver.
pub open spec fn unprobed_startup(startup: StartupViewModel) -> bool {
    &&& startup.summary@ == "Blocked: no usable device path yet"@
    &&& !startup.direct_receiver.available
    &&& startup.direct_receiver.detail@ == "Direct receiver unavailable"@
}

impl HostDesktopApp {
    /// A host with no runtime, no inventory and nothing selected, showing the
    /// demonstration shell.
    pub fn new() -> (r: Self)
        ensures
            r@ == demo_shell(initial_state(r@.startup, None)),
            unprobed_startup(r@.startup),
    {
        let mut r = Self::initial(None);
        r.dashboard = DashboardViewModel { total_devices: 1, degraded_devices: 0 };
        let mut sources: Vec<CaptureSourceOption> = Vec::new();
        sources.push(CaptureSourceOption::new("window:mock", "Mock iPhone Mirror"));
        r.device_detail = DeviceDetailViewModel {
            device_name: crate::text::owned("Mock iPhone"),
            capture_sources: sources,
            active_source_id: None,
            control_checklist: ControlSetupChecklist::for_pointer_mode(),
            inventory_notes: Vec::new(),
        };
        let mut plugin_rows: Vec<String> = Vec::new();
        plugin_rows.push(crate::text::owned("Mock iPhone: capture.window.helper / control.ble"));
        r.settings.plugin_rows = plugin_rows;
        proof {
            reveal_strlit("window:mock");
            assert(r@.plugin_rows =~= seq!["Mock iPhone: capture.window.helper / control.ble"@]);
            reveal_strlit("Mock iPhone Mirror");
            assert(r@.detail.capture_sources =~= seq![SourceOptionView { source_id: "window:mock"@, display_name: "Mock iPhone Mirror"@ }]);
            assert(r@.detail.inventory_notes =~= seq![]);
            assert(r@ =~= demo_shell(initial_state(r@.startup, None)));
        }
        r
    }

    fn initial(env_pointer_long_axis_units: Option<u32>) -> (r: Self)
        ensures
            r@ == initial_state(r@.startup, env_pointer_long_axis_units),
            unprobed_startup(r@.startup),
    {
        let r = HostDesktopApp {
            available_device_ids: Vec::new(),
            selected_device_id: None,
            fleet: FleetViewModel { rows: Vec::new() },
            inventory_snapshot: InventorySnapshot { devices: Vec::new() },
            inventory_missed_refreshes: MissedRefreshes::new(),
            runtime_statuses: Vec::new(),
            runtime_available: false,
            runtime_configured: false,
            runtime_workspace: None,
            preferences: HostPreferences::default(),
            restored_source_preference: None,
            manual_source_selection_device_id: None,
            pending_start_device_id: None,
            next_inventory_refresh_at: None,
            next_runtime_refresh_at: None,
            runtime_refresh_device_id: None,
            preview_input_bridge: PreviewInputBridge::new(env_pointer_long_axis_units),
            session_window_open: false,
            session_window_deferred_until_streaming: false,
            session_window_focus_requested: false,
            session_window_device_id: None,
            session_window_auto_sized_frame: None,
            session_window_resize_pending: false,
            dashboard: DashboardViewModel { total_devices: 0, degraded_devices: 0 },
            device_detail: DeviceDetailViewModel {
                device_name: crate::text::owned("No device selected"),
                capture_sources: Vec::new(),
                active_source_id: None,
                control_checklist: ControlSetupChecklist { items: Vec::new() },
                inventory_notes: Vec::new(),
            },
            session: SessionViewModel::idle(),
            diagnostics: DiagnosticsViewModel {
                host_error: None,
                control_summary: crate::text::owned("control not started"),
                grounding_summary: crate::text::owned("grounding idle"),
                startup_probe_runs: 0,
                inventory_refreshes: 0,
                inventory_rows: 0,
                inventory_startable_rows: 0,
                inventory_blocked_rows: 0,
                session_start_attempts: 0,
                session_start_successes: 0,
                session_start_failures: 0,
                log_lines: Vec::new(),
            },
            settings: SettingsViewModel::empty(),
            startup: StartupViewModel::blocked("Blocked: no usable device path yet"),
            requests: Vec::new(),
            log_writer_open: false,
            pending_log_lines: Vec::new(),
            preferences_changed: false,
            inventory_refresh_requested: false,
            direct_preview_config_changed: false,
        };
        proof {
            assert(r@.detail.capture_sources =~= seq![]);
            assert(r@.detail.control_checklist =~= seq![]);
            assert(r@.detail.inventory_notes =~= seq![]);
            assert(r@.available_device_ids =~= seq![]);
            assert(r@.fleet =~= seq![]);
            assert(r@.inventory =~= seq![]);
            assert(r@.statuses =~= seq![]);
            assert(r@.preferences.known_devices =~= seq![]);
            assert(r@.diagnostics.log_lines =~= seq![]);
            assert(r@.settings =~= seq![]);
            assert(r@.plugin_rows =~= seq![]);
            assert(r@.requests =~= seq![]);
            assert(r@.pending_log =~= seq![]);
            assert(r@ =~= initial_state(r@.startup, env_pointer_long_axis_units));
        }
        r
    }

    /// The host as a demonstration starts it: the same as [`Self::new`].
    pub fn demo() -> (r: Self)
        ensures
            r@ == demo_shell(initial_state(r@.startup, None)),
            unprobed_startup(r@.startup),
    {
        Self::new()
    }

    /// Whether the session window is shown.
    pub fn session_window_is_visible(&self) -> (r: bool)
        ensures
            r == self@.window_open,
    {
        self.session_window_open
    }

    /// Appends a line to the diagnostics log and, when the log file is open,
    /// hands it to the host to write.
    pub(crate) fn log_line(&mut self, line: String)
        ensures
            keeps_runtime(old(self)@, final(self)@),
            final(self)@ == with_log_line(old(self)@, line@),
    {
        if self.log_writer_open {
            let ghost before = self.pending_log_lines@;
            self.pending_log_lines.push(line);
            proof {
                assert(texts(self.pending_log_lines@) =~= texts(before).push(line@));
            }
        }
    }
}

} // verus!
