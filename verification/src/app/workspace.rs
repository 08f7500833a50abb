//! What the panes show for the selected device, from its runtime workspace,
//! its runtime status, or its inventory row.
use vstd::prelude::*;
use crate::inventory::model::{device_views, opt_view, DeviceView, InventoryDevice};
use crate::ordered::texts;
use crate::panels::device_detail::{
    option_views, CaptureSourceOption, ControlSetupChecklist, SourceOptionView,
};
use crate::protocol::{
    source_views, ControlSessionPhase, DeviceSessionStatus, SessionSubstate, SourceView,
    VideoSource,
};
use crate::runtime::RuntimeWorkspaceState;
use crate::view_models::device_detail::{DetailView, DeviceDetailViewModel};
use crate::view_models::diagnostics::{or_text, DiagnosticsView};
use crate::view_models::fleet::{find_status, status_index};
use crate::view_models::session::{
    error_view, idle_view, starting_view, streaming_view, waiting_view, SessionView,
    SessionViewModel, UiStateView,
};
use super::detail::{
    backend_source_spec, capture_source_for_backend, find_option, inventory_detail_spec,
    pick_option,
};
use super::{keeps_runtime, no_device_detail, AppView, HostDesktopApp};

verus! {

/// A workspace always comes with the status of its device.
pub open spec fn wf(s: AppView) -> bool {
    s.workspace matches Some(w) ==> status_index(s.statuses, w.device_id@) is Some
}

/// The name of a control phase.
pub open spec fn phase_name(p: ControlSessionPhase) -> Seq<char> {
    match p {
        ControlSessionPhase::Idle => "Idle"@,
        ControlSessionPhase::Advertising => "Advertising"@,
        ControlSessionPhase::Connected => "Connected"@,
        ControlSessionPhase::Error => "Error"@,
    }
}

pub fn phase_label(p: ControlSessionPhase) -> (r: &'static str)
    ensures
        r@ == phase_name(p),
{
    proof {
        reveal_strlit("Idle");
        reveal_strlit("Advertising");
        reveal_strlit("Connected");
        reveal_strlit("Error");
    }
    match p {
        ControlSessionPhase::Idle => "Idle",
        ControlSessionPhase::Advertising => "Advertising",
        ControlSessionPhase::Connected => "Connected",
        ControlSessionPhase::Error => "Error",
    }
}

/// The name of a session substate.
pub open spec fn substate_name(s: SessionSubstate) -> Seq<char> {
    match s {
        SessionSubstate::Discovering => "Discovering"@,
        SessionSubstate::StartingCapture => "StartingCapture"@,
        SessionSubstate::StartingControl => "StartingControl"@,
        SessionSubstate::ControlReady => "ControlReady"@,
        SessionSubstate::Streaming => "Streaming"@,
        SessionSubstate::Recovering => "Recovering"@,
        SessionSubstate::OperatorActionRequired => "OperatorActionRequired"@,
        SessionSubstate::DegradedCapture => "DegradedCapture"@,
        SessionSubstate::DegradedControl => "DegradedControl"@,
        SessionSubstate::Stopped => "Stopped"@,
    }
}

fn substate_text(s: SessionSubstate) -> (r: &'static str)
    ensures
        r@ == substate_name(s),
{
    proof {
        reveal_strlit("Discovering");
        reveal_strlit("StartingCapture");
        reveal_strlit("StartingControl");
        reveal_strlit("ControlReady");
        reveal_strlit("Streaming");
        reveal_strlit("Recovering");
        reveal_strlit("OperatorActionRequired");
        reveal_strlit("DegradedCapture");
        reveal_strlit("DegradedControl");
        reveal_strlit("Stopped");
    }
    match s {
        SessionSubstate::Discovering => "Discovering",
        SessionSubstate::StartingCapture => "StartingCapture",
        SessionSubstate::StartingControl => "StartingControl",
        SessionSubstate::ControlReady => "ControlReady",
        SessionSubstate::Streaming => "Streaming",
        SessionSubstate::Recovering => "Recovering",
        SessionSubstate::OperatorActionRequired => "OperatorActionRequired",
        SessionSubstate::DegradedCapture => "DegradedCapture",
        SessionSubstate::DegradedControl => "DegradedControl",
        SessionSubstate::Stopped => "Stopped",
    }
}

/// The session pane for a runtime status: streaming once control is ready,
/// waiting for the mirror while a direct session without a frame starts,
/// starting while any other session starts, failed with the operator's task
/// when degraded, idle when stopped.
pub open spec fn status_session_spec(
    status: DeviceSessionStatus,
    source: SourceOptionView,
    frame: Option<crate::protocol::VideoFrameDescriptor>,
) -> SessionView {
    match status.substate {
        SessionSubstate::ControlReady | SessionSubstate::Streaming => streaming_view(source, frame),
        SessionSubstate::Discovering | SessionSubstate::StartingCapture
        | SessionSubstate::StartingControl | SessionSubstate::Recovering => {
            if status.backends.capture_backend@ == "capture.direct"@ && frame is None {
                waiting_view(Some(source))
            } else {
                starting_view()
            }
        },
        SessionSubstate::OperatorActionRequired | SessionSubstate::DegradedCapture
        | SessionSubstate::DegradedControl => error_view(
            or_text(opt_view(status.operator_action), "Session requires operator intervention"@),
        ),
        SessionSubstate::Stopped => idle_view(),
    }
}

fn status_session(
    status: &DeviceSessionStatus,
    source: CaptureSourceOption,
    frame: Option<crate::protocol::VideoFrameDescriptor>,
) -> (r: SessionViewModel)
    ensures
        r@ == status_session_spec(*status, source@, frame),
{
    match status.substate {
        SessionSubstate::ControlReady | SessionSubstate::Streaming => match frame {
            Some(f) => SessionViewModel::streaming(source, f),
            None => SessionViewModel::streaming_without_frame(source),
        },
        SessionSubstate::Discovering | SessionSubstate::StartingCapture
        | SessionSubstate::StartingControl | SessionSubstate::Recovering => {
            if crate::text::same_text(status.backends.capture_backend.as_str(), "capture.direct")
                && frame.is_none() {
                SessionViewModel::waiting_for_mirror(Some(source))
            } else {
                SessionViewModel::starting()
            }
        },
        SessionSubstate::OperatorActionRequired | SessionSubstate::DegradedCapture
        | SessionSubstate::DegradedControl => {
            match &status.operator_action {
                Some(action) => SessionViewModel::error(action.as_str()),
                None => SessionViewModel::error("Session requires operator intervention"),
            }
        },
        SessionSubstate::Stopped => SessionViewModel::idle(),
    }
}

/// The capture plugin's detail of a workspace, if it has one.
pub open spec fn capture_detail_spec(w: RuntimeWorkspaceState) -> Option<Seq<char>> {
    match w.capture_status {
        Some(c) => opt_view(c.detail),
        None => None,
    }
}

/// The source options of a workspace's capture sources.
pub open spec fn workspace_options(sources: Seq<SourceView>) -> Seq<SourceOptionView> {
    sources.map_values(|v: SourceView| SourceOptionView { source_id: v.source_id, display_name: v.display_name })
}

/// A workspace's own account in the panes: its sources and checklist, and,
/// when its chosen source is among them, the session as its status says and
/// the control and grounding summaries of its diagnostics.
#[verifier::opaque]
pub open spec fn workspace_branch_spec(s: AppView, status: DeviceSessionStatus, w: RuntimeWorkspaceState) -> AppView {
    let s1 = workspace_detail_spec(s, w);
    match find_option(s1.detail.capture_sources, opt_view(w.selected_source_id)) {
        None => AppView { session: error_view("No runtime capture source selected"@), ..s1 },
        Some(source) => reconcile_spec(workspace_session_spec(s1, status, w, source)),
    }
}

/// A workspace's sources and checklist in the detail pane; a restored source
/// choice of its device is dropped.
#[verifier::opaque]
pub open spec fn workspace_detail_spec(s: AppView, w: RuntimeWorkspaceState) -> AppView {
    let sources = workspace_options(source_views(w.capture_sources@));
    AppView {
        detail: DetailView {
            device_name: w.summary.device_name@,
            capture_sources: sources,
            active_source_id: opt_view(w.selected_source_id),
            control_checklist: texts(w.control_checklist@),
            inventory_notes: seq![],
        },
        restored: match s.restored {
            Some(r) => if r.0 == w.device_id@ { None } else { s.restored },
            None => None,
        },
        ..s
    }
}

/// The session and diagnostics of a workspace whose chosen source is known.
#[verifier::opaque]
pub open spec fn workspace_session_spec(
    s: AppView,
    status: DeviceSessionStatus,
    w: RuntimeWorkspaceState,
    source: SourceOptionView,
) -> AppView {
    AppView {
        diagnostics: DiagnosticsView {
            host_error: opt_view(status.operator_action),
            control_summary: phase_name(w.control_phase) + ": "@ + w.diagnostics.control_summary@,
            grounding_summary: or_text(opt_view(w.diagnostics.grounding_summary), "grounding idle"@),
            ..s.diagnostics
        },
        session: SessionView {
            status_detail: capture_detail_spec(w),
            ..status_session_spec(status, source, w.latest_frame)
        },
        ..s
    }
}

/// A runtime status without a workspace in the panes: the source its capture
/// backend implies, the pointer-mode checklist, and the session as the status
/// says.
#[verifier::opaque]
pub open spec fn status_branch_spec(s: AppView, status: DeviceSessionStatus) -> AppView {
    let source = backend_source_spec(status.backends.capture_backend@);
    reconcile_spec(
        AppView {
            detail: DetailView {
                device_name: status.summary.device_name@,
                capture_sources: seq![source],
                active_source_id: Some(source.source_id),
                control_checklist: seq![
                    "Enable AssistiveTouch on the iPhone or iPad"@,
                    "Enable Full Keyboard Access for keyboard navigation"@,
                    "Pair the host over Bluetooth"@,
                ],
                inventory_notes: seq![],
            },
            diagnostics: DiagnosticsView {
                host_error: opt_view(status.operator_action),
                control_summary: "control backend "@ + status.backends.control_backend@,
                grounding_summary: "session "@ + substate_name(status.substate),
                ..s.diagnostics
            },
            session: status_session_spec(status, source, None),
            ..s
        },
    )
}

/// Index of the first row with the given inventory id.
pub open spec fn device_index(inventory: Seq<DeviceView>, id: Seq<char>) -> Option<int>
    decreases inventory.len(),
{
    if inventory.len() == 0 {
        None
    } else {
        match device_index(inventory.drop_last(), id) {
            Some(i) => Some(i),
            None => if inventory.last().inventory_id == id {
                Some(inventory.len() - 1)
            } else {
                None
            },
        }
    }
}

/// What the panes show for the selected device: nothing when none is
/// selected; else its runtime workspace, else its runtime status, else its
/// inventory row; unchanged when none of them knows it.
#[verifier::opaque]
pub open spec fn selected_workspace_spec(s: AppView) -> AppView {
    match s.selected_device_id {
        None => reconcile_spec(AppView { detail: no_device_detail(), session: idle_view(), ..s }),
        Some(sel) => {
            if s.workspace is Some && s.workspace->0.device_id@ == sel && status_index(s.statuses, sel) is Some {
                workspace_branch_spec(s, s.statuses[status_index(s.statuses, sel)->0], s.workspace->0)
            } else if status_index(s.statuses, sel) is Some {
                status_branch_spec(s, s.statuses[status_index(s.statuses, sel)->0])
            } else if device_index(s.inventory, sel) is Some {
                reconcile_spec(inventory_detail_spec(s, s.inventory[device_index(s.inventory, sel)->0]))
            } else {
                s
            }
        },
    }
}

/// The session window after a session state change: a window held back until
/// streaming opens (with focus) once the session streams or fails, and stops
/// waiting when the session is idle.
pub open spec fn reconcile_spec(s: AppView) -> AppView {
    if !s.window_deferred {
        s
    } else {
        match s.session.ui_state {
            UiStateView::WaitingForMirror | UiStateView::Starting => s,
            UiStateView::Streaming | UiStateView::Error(_) => AppView {
                window_open: true,
                window_deferred: false,
                window_focus: true,
                window_auto_sized: None,
                ..s
            },
            UiStateView::Idle => AppView { window_deferred: false, window_focus: false, ..s },
        }
    }
}

pub proof fn lemma_status_index_bound(statuses: Seq<DeviceSessionStatus>, id: Seq<char>)
    ensures
        status_index(statuses, id) matches Some(k) ==> 0 <= k < statuses.len()
            && statuses[k].summary.device_id@ == id,
    decreases statuses.len(),
{
    if statuses.len() > 0 {
        lemma_status_index_bound(statuses.drop_last(), id);
    }
}

proof fn lemma_device_index_prefix(inventory: Seq<DeviceView>, id: Seq<char>, k: int)
    requires
        0 <= k <= inventory.len(),
        device_index(inventory.subrange(0, k), id) is Some,
    ensures
        device_index(inventory, id) == device_index(inventory.subrange(0, k), id),
    decreases inventory.len() - k,
{
    if k < inventory.len() {
        assert(inventory.subrange(0, k + 1).drop_last() =~= inventory.subrange(0, k));
        lemma_device_index_prefix(inventory, id, k + 1);
    } else {
        assert(inventory.subrange(0, k) =~= inventory);
    }
}

/// Index of the first row with the given inventory id.
pub fn find_device(devices: &Vec<InventoryDevice>, id: &str) -> (r: Option<usize>)
    ensures
        match r {
            Some(k) => k < devices@.len() && device_index(device_views(devices@), id@) == Some(k as int),
            None => device_index(device_views(devices@), id@) is None,
        },
{
    let ghost views = device_views(devices@);
    let n = devices.len();
    let mut i: usize = 0;
    while i < n
        invariant
            n == devices@.len(),
            views == device_views(devices@),
            i <= n,
            device_index(views.subrange(0, i as int), id@) is None,
        decreases n - i,
    {
        assert(views.subrange(0, i + 1).drop_last() =~= views.subrange(0, i as int));
        if crate::text::same_text(devices[i].inventory_id.as_str(), id) {
            proof {
                assert(views.subrange(0, i + 1).last() == views[i as int]);
                assert(device_index(views.subrange(0, i + 1), id@) == Some(i as int));
                lemma_device_index_prefix(views, id@, i + 1);
            }
            return Some(i);
        }
        i = i + 1;
    }
    assert(views.subrange(0, n as int) =~= views);
    None
}

fn workspace_source_options(sources: &Vec<VideoSource>) -> (r: Vec<CaptureSourceOption>)
    ensures
        option_views(r@) == workspace_options(source_views(sources@)),
{
    let mut r: Vec<CaptureSourceOption> = Vec::new();
    let n = sources.len();
    let mut i: usize = 0;
    while i < n
        invariant
            n == sources@.len(),
            i <= n,
            option_views(r@) == workspace_options(source_views(sources@.subrange(0, i as int))),
        decreases n - i,
    {
        let ghost before = r@;
        let option = CaptureSourceOption::new(sources[i].source_id.as_str(), sources[i].display_name.as_str());
        r.push(option);
        proof {
            assert(option_views(r@) =~= option_views(before).push(option@));
            assert(workspace_options(source_views(sources@.subrange(0, i + 1))) =~= workspace_options(
                source_views(sources@.subrange(0, i as int)),
            ).push(option@));
        }
        i = i + 1;
    }
    assert(sources@.subrange(0, n as int) =~= sources@);
    r
}

impl HostDesktopApp {
    /// Opens a session window that was held back until streaming, once the
    /// session streams or fails.
    pub fn reconcile_session_window_state(&mut self)
        ensures
            keeps_runtime(old(self)@, final(self)@),
            final(self)@ == reconcile_spec(old(self)@),
    {
        if !self.session_window_deferred_until_streaming {
            return;
        }
        match self.session.ui_state {
            crate::view_models::session::SessionUiState::WaitingForMirror
            | crate::view_models::session::SessionUiState::Starting => {},
            crate::view_models::session::SessionUiState::Streaming
            | crate::view_models::session::SessionUiState::Error(_) => {
                self.session_window_open = true;
                self.session_window_deferred_until_streaming = false;
                self.session_window_focus_requested = true;
                self.session_window_auto_sized_frame = None;
            },
            crate::view_models::session::SessionUiState::Idle => {
                self.session_window_deferred_until_streaming = false;
                self.session_window_focus_requested = false;
            },
        }
    }

    fn apply_workspace_detail(&mut self)
        requires
            old(self).runtime_workspace is Some,
        ensures
            keeps_runtime(old(self)@, final(self)@),
            final(self)@ == workspace_detail_spec(old(self)@, old(self)@.workspace->0),
            final(self).runtime_workspace == old(self).runtime_workspace,
            final(self).runtime_statuses == old(self).runtime_statuses,
    {
        proof {
            reveal(workspace_detail_spec);
        }
        let workspace = self.runtime_workspace.as_ref().unwrap();
        let sources = workspace_source_options(&workspace.capture_sources);
        self.device_detail = DeviceDetailViewModel {
            device_name: workspace.summary.device_name.clone(),
            capture_sources: sources,
            active_source_id: crate::text::copy_opt(&workspace.selected_source_id),
            control_checklist: ControlSetupChecklist {
                items: crate::inventory::model::copy_texts(&workspace.control_checklist),
            },
            inventory_notes: Vec::new(),
        };
        let clear_restored = match &self.restored_source_preference {
            Some(pref) => crate::text::same_text(pref.device_id.as_str(), workspace.device_id.as_str()),
            None => false,
        };
        if clear_restored {
            self.restored_source_preference = None;
        }
        proof {
            assert(self@.detail.control_checklist =~= texts(workspace.control_checklist@));
            assert(self@.detail.inventory_notes =~= seq![]);
        }
    }

    fn apply_workspace_session(&mut self, status_at: usize, source: CaptureSourceOption)
        requires
            status_at < old(self).runtime_statuses@.len(),
            old(self).runtime_workspace is Some,
        ensures
            keeps_runtime(old(self)@, final(self)@),
            final(self)@ == workspace_session_spec(
                old(self)@,
                old(self)@.statuses[status_at as int],
                old(self)@.workspace->0,
                source@,
            ),
    {
        proof {
            reveal(workspace_session_spec);
        }
        let workspace = self.runtime_workspace.as_ref().unwrap();
        let status = &self.runtime_statuses[status_at];
        self.diagnostics.host_error = crate::text::copy_opt(&status.operator_action);
        self.diagnostics.control_summary = crate::text::joined3(
            phase_label(workspace.control_phase),
            ": ",
            workspace.diagnostics.control_summary.as_str(),
        );
        self.diagnostics.grounding_summary = match &workspace.diagnostics.grounding_summary {
            Some(g) => g.clone(),
            None => crate::text::owned("grounding idle"),
        };
        let capture_detail = match &workspace.capture_status {
            Some(c) => crate::text::copy_opt(&c.detail),
            None => None,
        };
        let frame = match &workspace.latest_frame {
            Some(f) => Some(f.clone()),
            None => None,
        };
        self.session = status_session(status, source, frame).with_status_detail(capture_detail);
    }

    fn apply_workspace(&mut self, status_at: usize)
        requires
            status_at < old(self).runtime_statuses@.len(),
            old(self).runtime_workspace is Some,
        ensures
            keeps_runtime(old(self)@, final(self)@),
            final(self)@ == workspace_branch_spec(
                old(self)@,
                old(self)@.statuses[status_at as int],
                old(self)@.workspace->0,
            ),
    {
        proof {
            reveal(workspace_branch_spec);
        }
        self.apply_workspace_detail();
        let selected_source_id = crate::text::copy_opt(&self.runtime_workspace.as_ref().unwrap().selected_source_id);
        let source = match pick_option(&self.device_detail.capture_sources, &selected_source_id) {
            Some(source) => source,
            None => {
                self.session = SessionViewModel::error("No runtime capture source selected");
                return;
            },
        };
        self.apply_workspace_session(status_at, source);
        self.reconcile_session_window_state();
    }

    fn apply_status(&mut self, status_at: usize)
        requires
            status_at < old(self).runtime_statuses@.len(),
        ensures
            keeps_runtime(old(self)@, final(self)@),
            final(self)@ == status_branch_spec(old(self)@, old(self)@.statuses[status_at as int]),
    {
        proof {
            reveal(status_branch_spec);
        }
        let status = &self.runtime_statuses[status_at];
        let source = capture_source_for_backend(status.backends.capture_backend.as_str());
        let mut sources: Vec<CaptureSourceOption> = Vec::new();
        sources.push(source.clone());
        self.device_detail = DeviceDetailViewModel {
            device_name: status.summary.device_name.clone(),
            capture_sources: sources,
            active_source_id: Some(source.source_id.clone()),
            control_checklist: ControlSetupChecklist::for_pointer_mode(),
            inventory_notes: Vec::new(),
        };
        self.diagnostics.host_error = crate::text::copy_opt(&status.operator_action);
        self.diagnostics.control_summary = crate::text::joined(
            "control backend ",
            status.backends.control_backend.as_str(),
        );
        self.diagnostics.grounding_summary = crate::text::joined("session ", substate_text(status.substate));
        self.session = status_session(status, source, None);
        proof {
            assert(self@.detail.capture_sources =~= seq![source@]);
            assert(self@.detail.control_checklist =~= seq![
                "Enable AssistiveTouch on the iPhone or iPad"@,
                "Enable Full Keyboard Access for keyboard navigation"@,
                "Pair the host over Bluetooth"@,
            ]);
            assert(self@.detail.inventory_notes =~= seq![]);
        }
        self.reconcile_session_window_state();
    }

    /// Shows the selected device in the panes: nothing when none is selected;
    /// else its runtime workspace, else its runtime status, else its inventory
    /// row.
    pub fn sync_selected_workspace(&mut self)
        requires
            wf(old(self)@),
        ensures
            keeps_runtime(old(self)@, final(self)@),
            final(self)@ == selected_workspace_spec(old(self)@),
    {
        proof {
            reveal(selected_workspace_spec);
        }
        let selected = match &self.selected_device_id {
            Some(id) => id.clone(),
            None => {
                self.device_detail.device_name = crate::text::owned("No device selected");
                self.device_detail.capture_sources = Vec::new();
                self.device_detail.active_source_id = None;
                self.device_detail.control_checklist = ControlSetupChecklist { items: Vec::new() };
                self.device_detail.inventory_notes = Vec::new();
                self.session = SessionViewModel::idle();
                proof {
                    assert(self@.detail.capture_sources =~= seq![]);
                    assert(self@.detail.control_checklist =~= seq![]);
                    assert(self@.detail.inventory_notes =~= seq![]);
                }
                self.reconcile_session_window_state();
                return;
            },
        };
        let status_at = find_status(self.runtime_statuses.as_slice(), selected.as_str());
        proof {
            lemma_status_index_bound(self@.statuses, selected@);
        }
        let workspace_matches = match &self.runtime_workspace {
            Some(w) => crate::text::same_text(w.device_id.as_str(), selected.as_str()),
            None => false,
        };
        if workspace_matches {
            match status_at {
                Some(k) => {
                    self.apply_workspace(k);
                    return;
                },
                None => {
                    proof {
                        assert(false);
                    }
                },
            }
        }
        if let Some(k) = status_at {
            self.apply_status(k);
            return;
        }
        match find_device(&self.inventory_snapshot.devices, selected.as_str()) {
            Some(k) => {
                let device = self.inventory_snapshot.devices[k].clone();
                self.apply_inventory_detail(&device);
                self.reconcile_session_window_state();
            },
            None => {},
        }
    }
}

} // verus!
