//! Refreshing the running session of the selected device on a timer.
use vstd::prelude::*;
use crate::inventory::model::opt_view;
use crate::protocol::SessionSubstate;
use crate::runtime::HostRuntimeSnapshot;
use crate::view_models::diagnostics::DiagnosticsView;
use crate::view_models::fleet::{find_status, status_index};
use super::requests::{with_request, RequestView, RuntimeRequest};
use super::start::{apply_snapshot_spec, result_view, snapshot_ok};
use super::workspace::{lemma_status_index_bound, wf};
use super::{
    keeps_runtime, AppView, HostDesktopApp, RUNTIME_REFRESH_POLL_INTERVAL_MS,
    WAITING_FOR_MIRROR_REFRESH_POLL_INTERVAL_MS,
};

verus! {

/// The workspace belongs to the device.
pub open spec fn workspace_for(s: AppView, dev: Seq<char>) -> bool {
    s.workspace matches Some(w) && w.device_id@ == dev
}

/// The device's session is a direct session whose workspace has no frame yet.
pub open spec fn waiting_for_first_frame(s: AppView, dev: Seq<char>) -> bool {
    &&& status_index(s.statuses, dev) is Some
    &&& s.statuses[status_index(s.statuses, dev)->0].backends.capture_backend@ == "capture.direct"@
    &&& workspace_for(s, dev)
    &&& s.workspace->0.latest_frame is None
}

/// The selected device, when its workspace is shown and its session streams
/// (control ready or streaming) or waits for a direct receiver's first frame.
pub open spec fn streaming_device_spec(s: AppView) -> Option<Seq<char>> {
    match s.selected_device_id {
        None => None,
        Some(dev) => {
            let streaming = match status_index(s.statuses, dev) {
                Some(k) => s.statuses[k].substate == SessionSubstate::ControlReady || s.statuses[k].substate
                    == SessionSubstate::Streaming || (s.statuses[k].backends.capture_backend@
                    == "capture.direct"@ && workspace_for(s, dev) && s.workspace->0.latest_frame is None),
                None => false,
            };
            if workspace_for(s, dev) && streaming {
                Some(dev)
            } else {
                None
            }
        },
    }
}

/// The device to refresh and how often: slower while a direct session waits
/// for its first frame.
pub open spec fn refresh_target_spec(s: AppView) -> Option<(Seq<char>, u64)> {
    match streaming_device_spec(s) {
        None => None,
        Some(dev) => Some(
            (
                dev,
                if waiting_for_first_frame(s, dev) {
                    WAITING_FOR_MIRROR_REFRESH_POLL_INTERVAL_MS
                } else {
                    RUNTIME_REFRESH_POLL_INTERVAL_MS
                },
            ),
        ),
    }
}

#[verifier::opaque]
/// The refresh timer at time `now`: stopped when nothing is to be refreshed;
/// restarted when the device to refresh changes; when due it is set one
/// interval ahead and a refresh is asked of the runtime, or, without a
/// runtime, the failure is shown.
pub open spec fn poll_runtime_spec(s: AppView, now: u64) -> AppView {
    match refresh_target_spec(s) {
        None => AppView { next_runtime_refresh_at: None, runtime_refresh_device: None, ..s },
        Some((dev, interval)) => {
            let s1 = if s.runtime_refresh_device != Some(dev) {
                AppView { runtime_refresh_device: Some(dev), next_runtime_refresh_at: None, ..s }
            } else {
                s
            };
            if s1.next_runtime_refresh_at matches Some(next) && now < next {
                s1
            } else {
                let s2 = AppView { next_runtime_refresh_at: Some((now + interval) as u64), ..s1 };
                if !s.runtime_available {
                    AppView {
                        diagnostics: DiagnosticsView {
                            host_error: Some(
                                "Runtime refresh failed for "@ + dev + ": host runtime unavailable"@,
                            ),
                            ..s2.diagnostics
                        },
                        ..s2
                    }
                } else {
                    with_request(s2, RequestView::Refresh(dev))
                }
            }
        },
    }
}

/// The runtime's answer to a refresh: a report is taken in; a failure is
/// shown.
pub open spec fn finish_refresh_spec(s: AppView, dev: Seq<char>, result: Result<HostRuntimeSnapshot, Seq<char>>) -> AppView {
    match result {
        Ok(snapshot) => apply_snapshot_spec(s, snapshot),
        Err(e) => AppView {
            diagnostics: DiagnosticsView {
                host_error: Some("Runtime refresh failed for "@ + dev + ": "@ + e),
                ..s.diagnostics
            },
            ..s
        },
    }
}

impl HostDesktopApp {
    /// The device whose session is refreshed on a timer, and the timer's
    /// interval in milliseconds.
    pub fn selected_runtime_refresh_target(&self) -> (r: Option<(String, u64)>)
        ensures
            match r {
                Some((d, i)) => refresh_target_spec(self@) == Some((d@, i)),
                None => refresh_target_spec(self@) is None,
            },
    {
        let device_id = match &self.selected_device_id {
            Some(d) => d,
            None => return None,
        };
        let workspace = match &self.runtime_workspace {
            Some(w) => if crate::text::same_text(w.device_id.as_str(), device_id.as_str()) {
                w
            } else {
                return None;
            },
            None => return None,
        };
        let k = match find_status(self.runtime_statuses.as_slice(), device_id.as_str()) {
            Some(k) => k,
            None => return None,
        };
        proof {
            lemma_status_index_bound(self@.statuses, device_id@);
        }
        let status = &self.runtime_statuses[k];
        let direct = crate::text::same_text(status.backends.capture_backend.as_str(), "capture.direct");
        let no_frame = workspace.latest_frame.is_none();
        let streaming = match status.substate {
            SessionSubstate::ControlReady | SessionSubstate::Streaming => true,
            _ => direct && no_frame,
        };
        if !streaming {
            return None;
        }
        let interval = if direct && no_frame {
            WAITING_FOR_MIRROR_REFRESH_POLL_INTERVAL_MS
        } else {
            RUNTIME_REFRESH_POLL_INTERVAL_MS
        };
        Some((device_id.clone(), interval))
    }

    /// Runs the session refresh timer at the host's time `now` (in
    /// milliseconds).
    #[verifier::rlimit(100)]
    pub fn poll_runtime_refresh_if_due(&mut self, now: u64)
        requires
            now <= u64::MAX - WAITING_FOR_MIRROR_REFRESH_POLL_INTERVAL_MS,
        ensures
            keeps_runtime(old(self)@, final(self)@),
            final(self)@ == poll_runtime_spec(old(self)@, now),
    {
        proof {
            reveal(poll_runtime_spec);
        }
        let (device_id, interval) = match self.selected_runtime_refresh_target() {
            Some(t) => t,
            None => {
                self.next_runtime_refresh_at = None;
                self.runtime_refresh_device_id = None;
                return;
            },
        };
        let same_device = match &self.runtime_refresh_device_id {
            Some(d) => crate::text::same_text(d.as_str(), device_id.as_str()),
            None => false,
        };
        if !same_device {
            self.runtime_refresh_device_id = Some(device_id.clone());
            self.next_runtime_refresh_at = None;
        }
        if let Some(next) = self.next_runtime_refresh_at {
            if now < next {
                return;
            }
        }
        self.next_runtime_refresh_at = Some(now + interval);
        if !self.runtime_available {
            let mut message = crate::text::joined("Runtime refresh failed for ", device_id.as_str());
            message.append(": host runtime unavailable");
            self.diagnostics.host_error = Some(message);
            return;
        }
        self.push_request(RuntimeRequest::Refresh(device_id));
    }

    /// Takes in the runtime's answer to a refresh of the device's session.
    pub fn finish_refresh_session(&mut self, device_id: &str, result: Result<HostRuntimeSnapshot, String>)
        requires
            result matches Ok(snap) ==> snapshot_ok(snap),
        ensures
            final(self)@ == finish_refresh_spec(old(self)@, device_id@, result_view(result)),
            result is Err ==> keeps_runtime(old(self)@, final(self)@),
            wf(old(self)@) ==> wf(final(self)@),
    {
        match result {
            Ok(snapshot) => self.apply_runtime_snapshot(snapshot),
            Err(error) => {
                let mut message = crate::text::joined("Runtime refresh failed for ", device_id);
                message.append(": ");
                message.append(error.as_str());
                self.diagnostics.host_error = Some(message);
            },
        }
    }
}

} // verus!
