//! Starting and stopping sessions: what the host asks of the runtime, and what
//! the panes show while it works and once it answers.
use vstd::prelude::*;
use crate::inventory::model::opt_view;
use crate::panels::device_detail::option_views;
use crate::preferences::{KnownDevicePreference, KnownDeviceView, PreferencesView};
use crate::runtime::HostRuntimeSnapshot;
use crate::text::occurs_in;
use crate::view_models::diagnostics::{sat_inc, keep_last, or_text, str_opt, DiagnosticsView};
use crate::view_models::fleet::status_index;
use crate::view_models::session::{error_view, idle_view, starting_view, SessionViewModel};
use super::detail::{option_ids, option_index};
use super::inventory::inventory_refresh_spec;
use super::navigation::{sync_spec};
use super::requests::{
    CaptureBackendChoice, PurposeView, RequestView, RuntimeRequest, StartPurpose, StartRequest,
    StartView, with_request,
};
use super::workspace::{device_index, find_device, reconcile_spec, wf};
use super::{keeps_runtime, with_log_line, AppView, HostDesktopApp};

verus! {

/// The log line of a session start request.
pub open spec fn attempt_line(device: Seq<char>, source: Option<Seq<char>>) -> Seq<char> {
    "session start requested device="@ + device + " source="@ + or_text(source, "auto"@)
}

/// The log line of a successful session start.
pub open spec fn success_line(device: Seq<char>, source: Option<Seq<char>>) -> Seq<char> {
    "session start succeeded device="@ + device + " source="@ + or_text(source, "auto"@)
}

/// The log line of a failed session start.
pub open spec fn failure_line(device: Option<Seq<char>>, error: Seq<char>) -> Seq<char> {
    "session start failed device="@ + or_text(device, "none"@) + " error="@ + error
}

/// One more start request counted and logged.
#[verifier::opaque]
pub open spec fn counted_attempt(s: AppView, device: Seq<char>, source: Option<Seq<char>>) -> AppView {
    let line = attempt_line(device, source);
    with_log_line(
        AppView {
            diagnostics: DiagnosticsView {
                session_start_attempts: sat_inc(s.diagnostics.session_start_attempts),
                log_lines: keep_last(s.diagnostics.log_lines.push(line)),
                ..s.diagnostics
            },
            ..s
        },
        line,
    )
}

/// One more successful start counted and logged.
#[verifier::opaque]
pub open spec fn counted_success(s: AppView, device: Seq<char>, source: Option<Seq<char>>) -> AppView {
    let line = success_line(device, source);
    with_log_line(
        AppView {
            diagnostics: DiagnosticsView {
                session_start_successes: sat_inc(s.diagnostics.session_start_successes),
                log_lines: keep_last(s.diagnostics.log_lines.push(line)),
                ..s.diagnostics
            },
            ..s
        },
        line,
    )
}

/// One more failed start counted and logged.
#[verifier::opaque]
pub open spec fn counted_failure(s: AppView, device: Option<Seq<char>>, error: Seq<char>) -> AppView {
    let line = failure_line(device, error);
    with_log_line(
        AppView {
            diagnostics: DiagnosticsView {
                session_start_failures: sat_inc(s.diagnostics.session_start_failures),
                log_lines: keep_last(s.diagnostics.log_lines.push(line)),
                ..s.diagnostics
            },
            ..s
        },
        line,
    )
}

/// A start that failed with `message`: the session pane shows the message,
/// control and grounding are blocked, and the failure is counted.
#[verifier::opaque]
pub open spec fn start_failed_spec(s: AppView, device: Option<Seq<char>>, message: Seq<char>) -> AppView {
    counted_failure(
        AppView {
            session: error_view(message),
            diagnostics: DiagnosticsView {
                host_error: Some(message),
                control_summary: "control blocked"@,
                grounding_summary: "grounding blocked"@,
                ..s.diagnostics
            },
            ..s
        },
        device,
        message,
    )
}

/// The panes while a start is under way.
pub open spec fn begin_spec(s: AppView) -> AppView {
    AppView {
        session: starting_view(),
        window_auto_sized: None,
        diagnostics: DiagnosticsView {
            host_error: None,
            control_summary: "control bootstrapping"@,
            grounding_summary: "grounding bootstrapping"@,
            ..s.diagnostics
        },
        ..s
    }
}

/// A restored source choice without the one of `device`.
pub open spec fn cleared(r: Option<(Seq<char>, Seq<char>)>, device: Seq<char>) -> Option<(Seq<char>, Seq<char>)> {
    match r {
        Some(p) => if p.0 == device { None } else { r },
        None => None,
    }
}

/// The device a start is for: the selected one, else the first listed.
pub open spec fn start_device_spec(s: AppView) -> Option<Seq<char>> {
    match s.selected_device_id {
        Some(d) => Some(d),
        None => if s.available_device_ids.len() > 0 {
            Some(s.available_device_ids[0])
        } else {
            None
        },
    }
}

/// The source the operator chose for the device in this run: the one picked
/// by hand in the detail pane, else the one of its runtime workspace.
pub open spec fn explicit_source_spec(s: AppView, device: Seq<char>) -> Option<Seq<char>> {
    let manual = if s.manual_source_device == Some(device) {
        s.detail.active_source_id
    } else {
        None
    };
    match manual {
        Some(m) => Some(m),
        None => match s.workspace {
            Some(w) => if w.device_id@ == device {
                opt_view(w.selected_source_id)
            } else {
                None
            },
            None => None,
        },
    }
}

/// The source restored from an earlier run for the device, if no source was
/// chosen in this run.
pub open spec fn restored_candidate_spec(s: AppView, device: Seq<char>, explicit: Option<Seq<char>>) -> Option<Seq<char>> {
    if explicit is None {
        match s.restored {
            Some(r) => if r.0 == device { Some(r.1) } else { None },
            None => None,
        }
    } else {
        None
    }
}

/// The detail pane lists sources and `id` is not among them.
pub open spec fn source_known_unavailable_spec(s: AppView, id: Seq<char>) -> bool {
    s.detail.capture_sources.len() > 0 && !option_ids(s.detail.capture_sources).contains(id)
}

/// The stable id of the device's inventory row, if it has one.
pub open spec fn stable_id_spec(s: AppView, device: Seq<char>) -> Option<Seq<char>> {
    match device_index(s.inventory, device) {
        Some(k) => s.inventory[k].stable_id,
        None => None,
    }
}

/// The source a start of `dev` goes to: the one chosen in this run, else the
/// restored one (dropped, together with the saved source, when the detail
/// pane shows it is gone), else the active one. Gives the state after a
/// drop, the restored source kept, and the source.
#[verifier::opaque]
pub open spec fn start_choice_spec(s: AppView, dev: Seq<char>) -> (AppView, Option<Seq<char>>, Option<Seq<char>>) {
    let explicit = explicit_source_spec(s, dev);
    let candidate = restored_candidate_spec(s, dev, explicit);
    let dropped = candidate is Some && source_known_unavailable_spec(s, candidate->0);
    let s1 = if dropped {
        AppView {
            restored: cleared(s.restored, dev),
            preferences: PreferencesView {
                selected_device_id: Some(dev),
                selected_source_id: None,
                ..s.preferences
            },
            preferences_changed: true,
            ..s
        }
    } else {
        s
    };
    let restored = if dropped { None } else { candidate };
    let source = match explicit {
        Some(e) => Some(e),
        None => match restored {
            Some(r) => Some(r),
            None => s.detail.active_source_id,
        },
    };
    (s1, restored, source)
}

/// The operator's start of a session: refused without a runtime or without a
/// device; otherwise a start on the chosen source (the one chosen in this
/// run, else the restored one unless the detail pane shows it is gone, else
/// the active one) is counted and asked of the runtime.
#[verifier::opaque]
pub open spec fn request_start_spec(s: AppView) -> AppView {
    if !s.runtime_available {
        start_failed_spec(s, s.selected_device_id, "Host runtime unavailable"@)
    } else {
        match start_device_spec(s) {
            None => counted_failure(
                AppView { session: error_view("No device selected"@), ..s },
                None,
                "No device selected"@,
            ),
            Some(dev) => {
                let (s1, restored, source) = start_choice_spec(s, dev);
                let s2 = begin_spec(AppView { selected_device_id: Some(dev), ..counted_attempt(s1, dev, source) });
                with_request(
                    s2,
                    RequestView::Start(
                        StartView {
                            device_id: dev,
                            device_name: s.detail.device_name,
                            source_id: source,
                            backend: CaptureBackendChoice::Window,
                            purpose: PurposeView::Selected {
                                restored_source_id: restored,
                                stable_id: stable_id_spec(s, dev),
                                retried: false,
                            },
                        },
                    ),
                )
            },
        }
    }
}

/// A runtime report in the state: its workspace's device is selected, and
/// the panes follow.
#[verifier::opaque]
pub open spec fn apply_snapshot_spec(s: AppView, snapshot: HostRuntimeSnapshot) -> AppView {
    sync_spec(
        AppView {
            selected_device_id: Some(snapshot.workspace.device_id@),
            statuses: snapshot.statuses@,
            workspace: Some(snapshot.workspace),
            ..s
        },
    )
}

/// A runtime report whose workspace comes with the status of its device.
pub open spec fn snapshot_ok(snapshot: HostRuntimeSnapshot) -> bool {
    status_index(snapshot.statuses@, snapshot.workspace.device_id@) is Some
}

/// Index of the first known device with the given id.
pub open spec fn known_index(known: Seq<KnownDeviceView>, id: Seq<char>) -> Option<int>
    decreases known.len(),
{
    if known.len() == 0 {
        None
    } else {
        match known_index(known.drop_last(), id) {
            Some(i) => Some(i),
            None => if known.last().known_device_id == id {
                Some(known.len() - 1)
            } else {
                None
            },
        }
    }
}

/// The known devices after a session with the device: its entry takes the
/// name and source (and the stable id, when one is known), or a new entry is
/// added at the end.
pub open spec fn remember_spec(
    known: Seq<KnownDeviceView>,
    device: Seq<char>,
    name: Seq<char>,
    source: Option<Seq<char>>,
    stable_id: Option<Seq<char>>,
) -> Seq<KnownDeviceView> {
    match known_index(known, device) {
        Some(i) => known.update(
            i,
            KnownDeviceView {
                display_name: name,
                last_source_id: source,
                stable_id: if stable_id is Some { stable_id } else { known[i].stable_id },
                ..known[i]
            },
        ),
        None => known.push(
            KnownDeviceView { known_device_id: device, display_name: name, stable_id, last_source_id: source },
        ),
    }
}

/// The runtime's error names the restored source as unavailable on the first
/// try, so the start is tried once more without it.
pub open spec fn stale_restored_spec(restored: Option<Seq<char>>, retried: bool, error: Seq<char>) -> bool {
    &&& restored is Some
    &&& !retried
    &&& occurs_in(error, "requested capture source"@)
    &&& occurs_in(error, restored->0)
    &&& occurs_in(error, "unavailable"@)
}

/// What the runtime's answer to a start does: a success is counted and
/// shown (for the operator's start, the device is remembered, the choice
/// saved and the inventory refreshed; for the direct receiver the inventory
/// is refreshed); a failure is shown and counted, except that a stale
/// restored source is dropped and the start tried once more without it.
#[verifier::opaque]
pub open spec fn finish_start_spec(s: AppView, request: StartView, result: Result<HostRuntimeSnapshot, Seq<char>>) -> AppView {
    let dev = request.device_id;
    match request.purpose {
        PurposeView::Selected { restored_source_id, stable_id, retried } => match result {
            Ok(snap) => {
                let source = opt_view(snap.workspace.selected_source_id);
                let s1 = AppView {
                    preferences: PreferencesView {
                        known_devices: remember_spec(
                            s.preferences.known_devices,
                            dev,
                            snap.workspace.summary.device_name@,
                            source,
                            stable_id,
                        ),
                        ..s.preferences
                    },
                    ..s
                };
                let s3 = apply_snapshot_spec(counted_success(s1, dev, source), snap);
                inventory_refresh_spec(
                    AppView {
                        restored: cleared(s3.restored, dev),
                        preferences: PreferencesView {
                            selected_device_id: s3.selected_device_id,
                            selected_source_id: s3.detail.active_source_id,
                            ..s3.preferences
                        },
                        preferences_changed: true,
                        ..s3
                    },
                )
            },
            Err(e) => if stale_restored_spec(restored_source_id, retried, e) {
                with_request(
                    AppView {
                        restored: cleared(s.restored, dev),
                        preferences: PreferencesView { selected_source_id: None, ..s.preferences },
                        preferences_changed: true,
                        ..s
                    },
                    RequestView::Start(
                        StartView {
                            source_id: None,
                            purpose: PurposeView::Selected { restored_source_id, stable_id, retried: true },
                            ..request
                        },
                    ),
                )
            } else {
                start_failed_spec(s, Some(dev), e)
            },
        },
        PurposeView::DirectForDevice => match result {
            Ok(snap) => reconcile_spec(
                apply_snapshot_spec(counted_success(s, dev, opt_view(snap.workspace.selected_source_id)), snap),
            ),
            Err(e) => reconcile_spec(start_failed_spec(s, Some(dev), e)),
        },
        PurposeView::DirectReceiver => match result {
            Ok(snap) => inventory_refresh_spec(
                apply_snapshot_spec(counted_success(s, dev, opt_view(snap.workspace.selected_source_id)), snap),
            ),
            Err(e) => start_failed_spec(s, Some(dev), e),
        },
    }
}

/// The view of a result whose error is text.
pub open spec fn result_view(r: Result<HostRuntimeSnapshot, String>) -> Result<HostRuntimeSnapshot, Seq<char>> {
    match r {
        Ok(s) => Ok(s),
        Err(e) => Err(e@),
    }
}

/// A direct-receiver session for a device opened from the launcher: refused
/// without a runtime, otherwise counted and asked of the runtime.
#[verifier::opaque]
pub open spec fn direct_for_device_spec(s: AppView, dev: Seq<char>) -> AppView {
    let s1 = AppView {
        selected_device_id: Some(dev),
        next_runtime_refresh_at: None,
        runtime_refresh_device: None,
        ..s
    };
    let name = match device_index(s.inventory, dev) {
        Some(k) => s.inventory[k].display_name,
        None => s.detail.device_name,
    };
    if !s.runtime_available {
        start_failed_spec(s1, Some(dev), "Host runtime unavailable"@)
    } else {
        with_request(
            counted_attempt(begin_spec(s1), dev, Some("direct-1"@)),
            RequestView::Start(
                StartView {
                    device_id: dev,
                    device_name: name,
                    source_id: Some("direct-1"@),
                    backend: CaptureBackendChoice::Direct,
                    purpose: PurposeView::DirectForDevice,
                },
            ),
        )
    }
}

/// The direct receiver can be started: there is a runtime, the receiver is
/// available, and it does not run yet.
pub open spec fn can_start_direct_spec(s: AppView) -> bool {
    s.runtime_available && s.startup.direct_receiver.available && status_index(
        s.statuses,
        "direct-receiver"@,
    ) is None
}

/// Starting the host's direct receiver: nothing while it runs; refused
/// without a runtime or while the receiver is unavailable; otherwise counted
/// and asked of the runtime.
#[verifier::opaque]
pub open spec fn direct_receiver_spec(s: AppView) -> AppView {
    let dev = "direct-receiver"@;
    if status_index(s.statuses, dev) is Some {
        s
    } else {
        let s1 = AppView {
            selected_device_id: Some(dev),
            next_runtime_refresh_at: None,
            runtime_refresh_device: None,
            ..s
        };
        if !s.runtime_available {
            start_failed_spec(s1, Some(dev), "Host runtime unavailable"@)
        } else if !s.startup.direct_receiver.available {
            start_failed_spec(s1, Some(dev), s.startup.direct_receiver.detail@)
        } else {
            with_request(
                counted_attempt(begin_spec(s1), dev, Some("direct-1"@)),
                RequestView::Start(
                    StartView {
                        device_id: dev,
                        device_name: "Direct Receiver"@,
                        source_id: Some("direct-1"@),
                        backend: CaptureBackendChoice::Direct,
                        purpose: PurposeView::DirectReceiver,
                    },
                ),
            )
        }
    }
}

/// The characters of an optional string, as a string slice.
pub fn as_str_opt(o: &Option<String>) -> (r: Option<&str>)
    ensures
        str_opt(r) == opt_view(*o),
{
    match o {
        Some(s) => Some(s.as_str()),
        None => None,
    }
}

impl HostDesktopApp {
    /// Counts and logs a session start request.
    fn record_session_start_attempt(&mut self, device_id: &str, source_id: Option<&str>)
        ensures
            keeps_runtime(old(self)@, final(self)@),
            final(self)@ == counted_attempt(old(self)@, device_id@, str_opt(source_id)),
    {
        proof {
            reveal(counted_attempt);
        }
        let line = self.diagnostics.record_session_start_attempt(device_id, source_id);
        self.log_line(line);
    }

    /// Counts and logs a successful session start.
    fn record_session_start_success(&mut self, device_id: &str, source_id: Option<&str>)
        ensures
            keeps_runtime(old(self)@, final(self)@),
            final(self)@ == counted_success(old(self)@, device_id@, str_opt(source_id)),
    {
        proof {
            reveal(counted_success);
        }
        let line = self.diagnostics.record_session_start_success(device_id, source_id);
        self.log_line(line);
    }

    /// Counts and logs a failed session start.
    fn record_session_start_failure(&mut self, device_id: Option<&str>, error: &str)
        ensures
            keeps_runtime(old(self)@, final(self)@),
            final(self)@ == counted_failure(old(self)@, str_opt(device_id), error@),
    {
        proof {
            reveal(counted_failure);
        }
        let line = self.diagnostics.record_session_start_failure(device_id, error);
        self.log_line(line);
    }

    /// Shows a failed start and counts it.
    fn start_failed(&mut self, device_id: Option<&str>, message: &str)
        ensures
            keeps_runtime(old(self)@, final(self)@),
            final(self)@ == start_failed_spec(old(self)@, str_opt(device_id), message@),
    {
        proof {
            reveal(start_failed_spec);
        }
        self.session = SessionViewModel::error(message);
        self.diagnostics.host_error = Some(crate::text::owned(message));
        self.diagnostics.control_summary = crate::text::owned("control blocked");
        self.diagnostics.grounding_summary = crate::text::owned("grounding blocked");
        self.record_session_start_failure(device_id, message);
    }

    /// Shows a start under way.
    fn begin_start(&mut self)
        ensures
            keeps_runtime(old(self)@, final(self)@),
            final(self)@ == begin_spec(old(self)@),
    {
        self.session = SessionViewModel::starting();
        self.session_window_auto_sized_frame = None;
        self.diagnostics.host_error = None;
        self.diagnostics.control_summary = crate::text::owned("control bootstrapping");
        self.diagnostics.grounding_summary = crate::text::owned("grounding bootstrapping");
    }

    /// Drops the restored source choice of `device_id`.
    pub fn clear_restored_source_preference_for_device(&mut self, device_id: &str)
        ensures
            keeps_runtime(old(self)@, final(self)@),
            final(self)@ == (AppView { restored: cleared(old(self)@.restored, device_id@), ..old(self)@ }),
    {
        let clear = match &self.restored_source_preference {
            Some(pref) => crate::text::same_text(pref.device_id.as_str(), device_id),
            None => false,
        };
        if clear {
            self.restored_source_preference = None;
        }
    }

    pub(crate) fn start_device(&self) -> (r: Option<String>)
        ensures
            opt_view(r) == start_device_spec(self@),
    {
        match &self.selected_device_id {
            Some(d) => Some(d.clone()),
            None => if self.available_device_ids.len() > 0 {
                Some(self.available_device_ids[0].clone())
            } else {
                None
            },
        }
    }

    fn explicit_source(&self, device_id: &str) -> (r: Option<String>)
        ensures
            opt_view(r) == explicit_source_spec(self@, device_id@),
    {
        let manual_matches = match &self.manual_source_selection_device_id {
            Some(d) => crate::text::same_text(d.as_str(), device_id),
            None => false,
        };
        if manual_matches {
            if let Some(a) = &self.device_detail.active_source_id {
                return Some(a.clone());
            }
        }
        match &self.runtime_workspace {
            Some(w) => if crate::text::same_text(w.device_id.as_str(), device_id) {
                crate::text::copy_opt(&w.selected_source_id)
            } else {
                None
            },
            None => None,
        }
    }

    fn restored_source_for(&self, device_id: &str) -> (r: Option<String>)
        ensures
            opt_view(r) == restored_candidate_spec(self@, device_id@, None),
    {
        match &self.restored_source_preference {
            Some(pref) => if crate::text::same_text(pref.device_id.as_str(), device_id) {
                Some(pref.source_id.clone())
            } else {
                None
            },
            None => None,
        }
    }

    fn source_known_unavailable(&self, source_id: &str) -> (r: bool)
        ensures
            r == source_known_unavailable_spec(self@, source_id@),
    {
        if self.device_detail.capture_sources.len() == 0 {
            return false;
        }
        let found = super::detail::find_option_index(&self.device_detail.capture_sources, source_id);
        proof {
            let views = option_views(self.device_detail.capture_sources@);
            super::detail::lemma_option_index_facts(views, source_id@);
        }
        found.is_none()
    }

    fn choose_start_source(&mut self, device_id: &str) -> (r: (Option<String>, Option<String>))
        ensures
            keeps_runtime(old(self)@, final(self)@),
            final(self)@ == start_choice_spec(old(self)@, device_id@).0,
            opt_view(r.0) == start_choice_spec(old(self)@, device_id@).1,
            opt_view(r.1) == start_choice_spec(old(self)@, device_id@).2,
            final(self)@.detail == old(self)@.detail,
            final(self)@.inventory == old(self)@.inventory,
    {
        proof {
            reveal(start_choice_spec);
        }
        let explicit = self.explicit_source(device_id);
        let mut restored = if explicit.is_none() {
            self.restored_source_for(device_id)
        } else {
            None
        };
        let dropped = match &restored {
            Some(r) => self.source_known_unavailable(r.as_str()),
            None => false,
        };
        if dropped {
            self.clear_restored_source_preference_for_device(device_id);
            self.preferences.selected_device_id = Some(crate::text::owned(device_id));
            self.preferences.selected_source_id = None;
            self.preferences_changed = true;
            restored = None;
        }
        let source = match explicit {
            Some(e) => Some(e),
            None => match &restored {
                Some(r) => Some(r.clone()),
                None => crate::text::copy_opt(&self.device_detail.active_source_id),
            },
        };
        (restored, source)
    }

    fn stable_id_of(&self, device_id: &str) -> (r: Option<String>)
        ensures
            opt_view(r) == stable_id_spec(self@, device_id@),
    {
        match find_device(&self.inventory_snapshot.devices, device_id) {
            Some(k) => crate::text::copy_opt(&self.inventory_snapshot.devices[k].stable_id),
            None => None,
        }
    }

    /// The operator's start of a session on the selected device (or the
    /// first listed): refused without a runtime or a device; otherwise the
    /// start, on the source chosen in this run or restored from an earlier
    /// one, is counted and asked of the runtime.
    #[verifier::rlimit(100)]
    pub fn request_start_session(&mut self)
        ensures
            keeps_runtime(old(self)@, final(self)@),
            final(self)@ == request_start_spec(old(self)@),
    {
        proof {
            reveal(request_start_spec);
        }
        if !self.runtime_available {
            let selected = crate::text::copy_opt(&self.selected_device_id);
            self.start_failed(as_str_opt(&selected), "Host runtime unavailable");
            return;
        }
        let device_id = match self.start_device() {
            Some(d) => d,
            None => {
                self.session = SessionViewModel::error("No device selected");
                self.record_session_start_failure(None, "No device selected");
                return;
            },
        };
        let (restored, source) = self.choose_start_source(device_id.as_str());
        let stable_id = self.stable_id_of(device_id.as_str());
        let device_name = self.device_detail.device_name.clone();
        self.record_session_start_attempt(device_id.as_str(), as_str_opt(&source));
        self.selected_device_id = Some(device_id.clone());
        self.begin_start();
        let request = StartRequest {
            device_id,
            device_name,
            source_id: source,
            backend: CaptureBackendChoice::Window,
            purpose: StartPurpose::Selected { restored_source_id: restored, stable_id, retried: false },
        };
        self.push_request(RuntimeRequest::Start(request));
    }

    /// Records a session with the device among the known devices.
    pub fn remember_known_device(
        &mut self,
        device_id: &str,
        device_name: &str,
        source_id: Option<String>,
        stable_id: Option<String>,
    )
        ensures
            keeps_runtime(old(self)@, final(self)@),
            final(self)@ == (AppView {
                preferences: PreferencesView {
                    known_devices: remember_spec(
                        old(self)@.preferences.known_devices,
                        device_id@,
                        device_name@,
                        opt_view(source_id),
                        opt_view(stable_id),
                    ),
                    ..old(self)@.preferences
                },
                ..old(self)@
            }),
    {
        let ghost known = old(self)@.preferences.known_devices;
        let n = self.preferences.known_devices.len();
        let mut i: usize = 0;
        while i < n
            invariant
                n == self.preferences.known_devices@.len(),
                known == crate::preferences::known_views(self.preferences.known_devices@),
                *self == *old(self),
                i <= n,
                known_index(known.subrange(0, i as int), device_id@) is None,
            decreases n - i,
        {
            assert(known.subrange(0, i + 1).drop_last() =~= known.subrange(0, i as int));
            if crate::text::same_text(self.preferences.known_devices[i].known_device_id.as_str(), device_id) {
                proof {
                    assert(known.subrange(0, i + 1).last() == known[i as int]);
                    lemma_known_index_prefix(known, device_id@, i + 1);
                }
                let entry = &self.preferences.known_devices[i];
                let updated = KnownDevicePreference {
                    known_device_id: entry.known_device_id.clone(),
                    display_name: crate::text::owned(device_name),
                    stable_id: if stable_id.is_some() {
                        stable_id
                    } else {
                        crate::text::copy_opt(&entry.stable_id)
                    },
                    last_source_id: source_id,
                };
                let ghost before = self.preferences.known_devices@;
                self.preferences.known_devices.set(i, updated);
                proof {
                    assert(crate::preferences::known_views(self.preferences.known_devices@) =~= known.update(
                        i as int,
                        updated@,
                    ));
                }
                return;
            }
            i = i + 1;
        }
        assert(known.subrange(0, n as int) =~= known);
        let entry = KnownDevicePreference {
            known_device_id: crate::text::owned(device_id),
            display_name: crate::text::owned(device_name),
            stable_id,
            last_source_id: source_id,
        };
        let ghost before = self.preferences.known_devices@;
        self.preferences.known_devices.push(entry);
        proof {
            assert(crate::preferences::known_views(self.preferences.known_devices@) =~= known.push(entry@));
        }
    }
}

proof fn lemma_known_index_prefix(known: Seq<KnownDeviceView>, id: Seq<char>, k: int)
    requires
        0 <= k <= known.len(),
        known_index(known.subrange(0, k), id) is Some,
    ensures
        known_index(known, id) == known_index(known.subrange(0, k), id),
    decreases known.len() - k,
{
    if k < known.len() {
        assert(known.subrange(0, k + 1).drop_last() =~= known.subrange(0, k));
        lemma_known_index_prefix(known, id, k + 1);
    } else {
        assert(known.subrange(0, k) =~= known);
    }
}

/// Stopping the session: the runtime is asked to stop the selected device's
/// session (when there is a runtime), and every trace of the session is
/// dropped: statuses, workspace, timers, preview input, restored and
/// hand-picked sources, and the session window; then the panes follow.
#[verifier::opaque]
pub open spec fn stop_spec(s: AppView) -> AppView {
    let s1 = if s.runtime_available && s.selected_device_id is Some {
        with_request(s, RequestView::Stop(s.selected_device_id->0))
    } else {
        s
    };
    sync_spec(
        AppView {
            statuses: seq![],
            workspace: None,
            next_inventory_refresh_at: None,
            next_runtime_refresh_at: None,
            runtime_refresh_device: None,
            bridge: crate::preview::BridgeView {
                armed: false,
                buttons: 0,
                device_pointer: None,
                ..s1.bridge
            },
            restored: None,
            manual_source_device: None,
            window_open: false,
            window_deferred: false,
            window_focus: false,
            window_device: None,
            window_auto_sized: None,
            session: idle_view(),
            diagnostics: DiagnosticsView {
                host_error: None,
                control_summary: "control not started"@,
                grounding_summary: "grounding idle"@,
                ..s1.diagnostics
            },
            ..s1
        },
    )
}

/// Choosing a capture source in the detail pane: nothing when the pane does
/// not list it; otherwise it becomes the active source of the detail and
/// session panes, starting is offered unless a session runs or starts, the
/// choice counts as made by hand for the selected device, and it is saved.
#[verifier::opaque]
pub open spec fn select_source_spec(s: AppView, source_id: Seq<char>) -> AppView {
    match option_index(s.detail.capture_sources, source_id) {
        None => s,
        Some(k) => {
            let source = s.detail.capture_sources[k];
            AppView {
                detail: crate::view_models::device_detail::DetailView {
                    active_source_id: Some(source.source_id),
                    ..s.detail
                },
                session: crate::view_models::session::SessionView {
                    selected_source: Some(source),
                    start_enabled: !(s.session.ui_state is Streaming || s.session.ui_state is Starting
                        || s.session.ui_state is WaitingForMirror),
                    ..s.session
                },
                manual_source_device: s.selected_device_id,
                restored: match s.selected_device_id {
                    Some(d) => cleared(s.restored, d),
                    None => s.restored,
                },
                preferences: PreferencesView {
                    selected_device_id: s.selected_device_id,
                    selected_source_id: Some(source.source_id),
                    ..s.preferences
                },
                preferences_changed: true,
                ..s
            }
        },
    }
}

impl HostDesktopApp {
    /// Starts a direct-receiver session for a device opened from the
    /// launcher.
    #[verifier::rlimit(100)]
    pub fn request_start_direct_session_for_device(&mut self, device_id: &str)
        ensures
            keeps_runtime(old(self)@, final(self)@),
            final(self)@ == direct_for_device_spec(old(self)@, device_id@),
    {
        proof {
            reveal(direct_for_device_spec);
        }
        let ghost s = self@;
        let device_name = match find_device(&self.inventory_snapshot.devices, device_id) {
            Some(k) => self.inventory_snapshot.devices[k].display_name.clone(),
            None => self.device_detail.device_name.clone(),
        };
        self.selected_device_id = Some(crate::text::owned(device_id));
        self.next_runtime_refresh_at = None;
        self.runtime_refresh_device_id = None;
        if !self.runtime_available {
            self.start_failed(Some(device_id), "Host runtime unavailable");
            return;
        }
        self.begin_start();
        proof {
            reveal_strlit("direct-1");
        }
        self.record_session_start_attempt(device_id, Some("direct-1"));
        let request = StartRequest {
            device_id: crate::text::owned(device_id),
            device_name,
            source_id: Some(crate::text::owned("direct-1")),
            backend: CaptureBackendChoice::Direct,
            purpose: StartPurpose::DirectForDevice,
        };
        self.push_request(RuntimeRequest::Start(request));
    }

    /// Whether the host's direct receiver can be started: there is a runtime,
    /// the receiver is available, and it does not run yet.
    pub fn can_start_direct_receiver(&self) -> (r: bool)
        ensures
            r == can_start_direct_spec(self@),
    {
        self.runtime_available && self.startup.direct_receiver.available && crate::view_models::fleet::find_status(
            self.runtime_statuses.as_slice(),
            "direct-receiver",
        ).is_none()
    }

    /// Starts the host's direct receiver.
    pub fn request_start_direct_receiver(&mut self)
        ensures
            keeps_runtime(old(self)@, final(self)@),
            final(self)@ == direct_receiver_spec(old(self)@),
    {
        proof {
            reveal(direct_receiver_spec);
        }
        if crate::view_models::fleet::find_status(self.runtime_statuses.as_slice(), "direct-receiver").is_some() {
            return;
        }
        self.selected_device_id = Some(crate::text::owned("direct-receiver"));
        self.next_runtime_refresh_at = None;
        self.runtime_refresh_device_id = None;
        proof {
            reveal_strlit("direct-1");
            reveal_strlit("direct-receiver");
        }
        if !self.runtime_available {
            self.start_failed(Some("direct-receiver"), "Host runtime unavailable");
            return;
        }
        if !self.startup.direct_receiver.available {
            let message = self.startup.direct_receiver.detail.clone();
            self.start_failed(Some("direct-receiver"), message.as_str());
            return;
        }
        self.begin_start();
        self.record_session_start_attempt("direct-receiver", Some("direct-1"));
        let request = StartRequest {
            device_id: crate::text::owned("direct-receiver"),
            device_name: crate::text::owned("Direct Receiver"),
            source_id: Some(crate::text::owned("direct-1")),
            backend: CaptureBackendChoice::Direct,
            purpose: StartPurpose::DirectReceiver,
        };
        self.push_request(RuntimeRequest::Start(request));
    }

    /// Takes in a runtime report: its workspace's device is selected and the
    /// panes follow.
    pub fn apply_runtime_snapshot(&mut self, snapshot: HostRuntimeSnapshot)
        requires
            snapshot_ok(snapshot),
        ensures
            final(self)@ == apply_snapshot_spec(old(self)@, snapshot),
            wf(final(self)@),
    {
        proof {
            reveal(apply_snapshot_spec);
        }
        self.selected_device_id = Some(snapshot.workspace.device_id.clone());
        self.runtime_statuses = snapshot.statuses;
        self.runtime_workspace = Some(snapshot.workspace);
        self.sync_from_inventory_and_runtime();
    }

    /// Takes in the runtime's statuses without a workspace: the workspace and
    /// the refresh timers are dropped and the panes follow.
    pub fn replace_runtime_statuses(&mut self, statuses: Vec<crate::protocol::DeviceSessionStatus>)
        ensures
            final(self)@ == sync_spec(AppView {
                workspace: None,
                next_inventory_refresh_at: None,
                next_runtime_refresh_at: None,
                runtime_refresh_device: None,
                statuses: statuses@,
                ..old(self)@
            }),
    {
        self.runtime_workspace = None;
        self.next_inventory_refresh_at = None;
        self.next_runtime_refresh_at = None;
        self.runtime_refresh_device_id = None;
        self.runtime_statuses = statuses;
        self.sync_from_inventory_and_runtime();
    }

    /// Takes in the runtime's answer to a start request.
    pub fn finish_start_session(&mut self, request: StartRequest, result: Result<HostRuntimeSnapshot, String>)
        requires
            wf(old(self)@),
            result matches Ok(snap) ==> snapshot_ok(snap),
        ensures
            final(self)@ == finish_start_spec(old(self)@, request@, result_view(result)),
    {
        proof {
            reveal(finish_start_spec);
        }
        let ghost req = request@;
        let StartRequest { device_id, device_name, source_id: _, backend, purpose } = request;
        match purpose {
            StartPurpose::Selected { restored_source_id, stable_id, retried } => match result {
                Ok(snapshot) => {
                    let source = crate::text::copy_opt(&snapshot.workspace.selected_source_id);
                    self.remember_known_device(
                        device_id.as_str(),
                        snapshot.workspace.summary.device_name.as_str(),
                        crate::text::copy_opt(&source),
                        stable_id,
                    );
                    self.record_session_start_success(device_id.as_str(), as_str_opt(&source));
                    self.apply_runtime_snapshot(snapshot);
                    self.clear_restored_source_preference_for_device(device_id.as_str());
                    self.preferences.selected_device_id = crate::text::copy_opt(&self.selected_device_id);
                    self.preferences.selected_source_id = crate::text::copy_opt(&self.device_detail.active_source_id);
                    self.preferences_changed = true;
                    self.refresh_inventory();
                },
                Err(message) => {
                    let stale = match &restored_source_id {
                        Some(r) => !retried && crate::text::contains_text(
                            message.as_str(),
                            "requested capture source",
                        ) && crate::text::contains_text(message.as_str(), r.as_str())
                            && crate::text::contains_text(message.as_str(), "unavailable"),
                        None => false,
                    };
                    if stale {
                        self.clear_restored_source_preference_for_device(device_id.as_str());
                        self.preferences.selected_source_id = None;
                        self.preferences_changed = true;
                        let retry = StartRequest {
                            device_id,
                            device_name,
                            source_id: None,
                            backend,
                            purpose: StartPurpose::Selected { restored_source_id, stable_id, retried: true },
                        };
                        self.push_request(RuntimeRequest::Start(retry));
                    } else {
                        self.start_failed(Some(device_id.as_str()), message.as_str());
                    }
                },
            },
            StartPurpose::DirectForDevice => {
                match result {
                    Ok(snapshot) => {
                        let source = crate::text::copy_opt(&snapshot.workspace.selected_source_id);
                        self.record_session_start_success(device_id.as_str(), as_str_opt(&source));
                        self.apply_runtime_snapshot(snapshot);
                    },
                    Err(message) => {
                        self.start_failed(Some(device_id.as_str()), message.as_str());
                    },
                }
                self.reconcile_session_window_state();
            },
            StartPurpose::DirectReceiver => match result {
                Ok(snapshot) => {
                    let source = crate::text::copy_opt(&snapshot.workspace.selected_source_id);
                    self.record_session_start_success(device_id.as_str(), as_str_opt(&source));
                    self.apply_runtime_snapshot(snapshot);
                    self.refresh_inventory();
                },
                Err(message) => {
                    self.start_failed(Some(device_id.as_str()), message.as_str());
                },
            },
        }
    }

    /// Stops the session and drops every trace of it.
    pub fn stop_session(&mut self)
        ensures
            final(self)@ == stop_spec(old(self)@),
    {
        proof {
            reveal(stop_spec);
        }
        if self.runtime_available {
            if let Some(device_id) = &self.selected_device_id {
                let request = RuntimeRequest::Stop(device_id.clone());
                self.push_request(request);
            }
        }
        self.runtime_statuses = Vec::new();
        self.runtime_workspace = None;
        self.next_inventory_refresh_at = None;
        self.next_runtime_refresh_at = None;
        self.runtime_refresh_device_id = None;
        self.preview_input_bridge.reset();
        self.restored_source_preference = None;
        self.manual_source_selection_device_id = None;
        self.session_window_open = false;
        self.session_window_deferred_until_streaming = false;
        self.session_window_focus_requested = false;
        self.session_window_device_id = None;
        self.session_window_auto_sized_frame = None;
        self.session = SessionViewModel::idle();
        self.diagnostics.host_error = None;
        self.diagnostics.control_summary = crate::text::owned("control not started");
        self.diagnostics.grounding_summary = crate::text::owned("grounding idle");
        proof {
            assert(self@.statuses =~= seq![]);
        }
        self.sync_from_inventory_and_runtime();
    }

    /// Chooses a capture source in the detail pane.
    pub fn select_capture_source(&mut self, source_id: &str)
        ensures
            final(self)@ == select_source_spec(old(self)@, source_id@),
    {
        proof {
            reveal(select_source_spec);
        }
        let k = match super::detail::find_option_index(&self.device_detail.capture_sources, source_id) {
            Some(k) => k,
            None => return,
        };
        let source = self.device_detail.capture_sources[k].clone();
        self.device_detail.active_source_id = Some(source.source_id.clone());
        let start_enabled = match self.session.ui_state {
            crate::view_models::session::SessionUiState::Streaming
            | crate::view_models::session::SessionUiState::Starting
            | crate::view_models::session::SessionUiState::WaitingForMirror => false,
            _ => true,
        };
        let source_id_owned = source.source_id.clone();
        self.session.selected_source = Some(source);
        self.session.start_enabled = start_enabled;
        self.manual_source_selection_device_id = crate::text::copy_opt(&self.selected_device_id);
        if let Some(device_id) = crate::text::copy_opt(&self.selected_device_id) {
            self.clear_restored_source_preference_for_device(device_id.as_str());
        }
        self.preferences.selected_device_id = crate::text::copy_opt(&self.selected_device_id);
        self.preferences.selected_source_id = Some(source_id_owned);
        self.preferences_changed = true;
    }

    /// At launch, starts a session for the device selected in an earlier run.
    pub fn start_runtime_session_on_launch(&mut self)
        ensures
            old(self)@.selected_device_id is Some ==> final(self)@ == request_start_spec(old(self)@),
            old(self)@.selected_device_id is None ==> final(self)@ == old(self)@,
    {
        if self.selected_device_id.is_some() {
            self.request_start_session();
        }
    }
}

} // verus!
