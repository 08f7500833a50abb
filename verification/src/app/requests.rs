//! What the host state machine asks of the session runtime.
use vstd::prelude::*;
use crate::inventory::model::opt_view;
use crate::ordered::texts;
use crate::preview::{event_views, EventView};
use crate::protocol::ControlInputEvent;
use super::{keeps_runtime, AppView, HostDesktopApp};

verus! {

/// The capture backend a session starts on.
#[derive(Debug, Clone, Copy, PartialEq, Eq, Structural)]
pub enum CaptureBackendChoice {
    Window,
    Direct,
}

/// Why a session start was requested, which decides how its result is taken.
#[derive(Debug, PartialEq, Eq)]
pub enum StartPurpose {
    /// The operator's start of the selected device, with the source restored
    /// from an earlier run (if that is the one asked for), the device's
    /// stable id, and whether this is the second try.
    Selected { restored_source_id: Option<String>, stable_id: Option<String>, retried: bool },
    /// A direct-receiver session for a device opened from the launcher.
    DirectForDevice,
    /// The host's own direct receiver.
    DirectReceiver,
}

/// A session start for the runtime.
#[derive(Debug, PartialEq, Eq)]
pub struct StartRequest {
    pub device_id: String,
    pub device_name: String,
    pub source_id: Option<String>,
    pub backend: CaptureBackendChoice,
    pub purpose: StartPurpose,
}

/// One piece of work for the session runtime.
#[derive(Debug, PartialEq, Eq)]
pub enum RuntimeRequest {
    /// Start a session; hand the result to `finish_start_session`.
    Start(StartRequest),
    /// Stop the device's session; its result does not matter.
    Stop(String),
    /// Refresh the device's session; hand the result to
    /// `finish_refresh_session`.
    Refresh(String),
    /// Forward the events to the device in order, stopping at the first
    /// failure; hand the outcomes to `finish_forward_input`.
    Forward { device_id: String, events: Vec<ControlInputEvent> },
}

/// The characters of a [`StartPurpose`].
pub enum PurposeView {
    Selected { restored_source_id: Option<Seq<char>>, stable_id: Option<Seq<char>>, retried: bool },
    DirectForDevice,
    DirectReceiver,
}

/// The characters of a [`StartRequest`].
pub struct StartView {
    pub device_id: Seq<char>,
    pub device_name: Seq<char>,
    pub source_id: Option<Seq<char>>,
    pub backend: CaptureBackendChoice,
    pub purpose: PurposeView,
}

/// The characters of a [`RuntimeRequest`].
pub enum RequestView {
    Start(StartView),
    Stop(Seq<char>),
    Refresh(Seq<char>),
    Forward(Seq<char>, Seq<EventView>),
}

impl View for StartPurpose {
    type V = PurposeView;

    open spec fn view(&self) -> PurposeView {
        match self {
            StartPurpose::Selected { restored_source_id, stable_id, retried } => PurposeView::Selected {
                restored_source_id: opt_view(*restored_source_id),
                stable_id: opt_view(*stable_id),
                retried: *retried,
            },
            StartPurpose::DirectForDevice => PurposeView::DirectForDevice,
            StartPurpose::DirectReceiver => PurposeView::DirectReceiver,
        }
    }
}

impl View for StartRequest {
    type V = StartView;

    open spec fn view(&self) -> StartView {
        StartView {
            device_id: self.device_id@,
            device_name: self.device_name@,
            source_id: opt_view(self.source_id),
            backend: self.backend,
            purpose: self.purpose@,
        }
    }
}

impl View for RuntimeRequest {
    type V = RequestView;

    open spec fn view(&self) -> RequestView {
        match self {
            RuntimeRequest::Start(s) => RequestView::Start(s@),
            RuntimeRequest::Stop(d) => RequestView::Stop(d@),
            RuntimeRequest::Refresh(d) => RequestView::Refresh(d@),
            RuntimeRequest::Forward { device_id, events } => RequestView::Forward(
                device_id@,
                event_views(events@),
            ),
        }
    }
}

/// The views of a sequence of requests.
pub open spec fn request_views(s: Seq<RuntimeRequest>) -> Seq<RequestView> {
    s.map_values(|r: RuntimeRequest| r@)
}

/// The state with one more request for the runtime.
pub open spec fn with_request(s: AppView, r: RequestView) -> AppView {
    AppView { requests: s.requests.push(r), ..s }
}

impl HostDesktopApp {
    /// Adds a request for the runtime.
    pub(crate) fn push_request(&mut self, request: RuntimeRequest)
        ensures
            keeps_runtime(old(self)@, final(self)@),
            final(self)@ == with_request(old(self)@, request@),
    {
        let ghost before = self.requests@;
        self.requests.push(request);
        proof {
            assert(request_views(self.requests@) =~= request_views(before).push(request@));
        }
    }

    /// Hands the host the runtime requests it has yet to run, oldest first.
    pub fn take_requests(&mut self) -> (r: Vec<RuntimeRequest>)
        ensures
            request_views(r@) == old(self)@.requests,
            final(self)@ == (AppView { requests: seq![], ..old(self)@ }),
    {
        let mut taken: Vec<RuntimeRequest> = Vec::new();
        std::mem::swap(&mut taken, &mut self.requests);
        proof {
            assert(request_views(self.requests@) =~= seq![]);
        }
        taken
    }

    /// Hands the host the log lines it has yet to write, oldest first.
    pub fn take_log_lines(&mut self) -> (r: Vec<String>)
        ensures
            texts(r@) == old(self)@.pending_log,
            final(self)@ == (AppView { pending_log: seq![], ..old(self)@ }),
    {
        let mut taken: Vec<String> = Vec::new();
        std::mem::swap(&mut taken, &mut self.pending_log_lines);
        proof {
            assert(texts(self.pending_log_lines@) =~= seq![]);
        }
        taken
    }

    /// The host could not append to its log file: the file is given up, the
    /// lines not yet written are dropped, and the failure is logged in the
    /// diagnostics pane.
    pub fn log_append_failed(&mut self, error: &str)
        ensures
            final(self)@ == (AppView {
                log_writer_open: false,
                pending_log: seq![],
                diagnostics: crate::view_models::diagnostics::DiagnosticsView {
                    log_lines: crate::view_models::diagnostics::keep_last(
                        old(self)@.diagnostics.log_lines.push("host log append failed: "@ + error@),
                    ),
                    ..old(self)@.diagnostics
                },
                ..old(self)@
            }),
    {
        self.log_writer_open = false;
        self.pending_log_lines = Vec::new();
        let line = crate::text::joined("host log append failed: ", error);
        let _ = self.diagnostics.record_host_log_line(line.as_str());
        proof {
            assert(texts(self.pending_log_lines@) =~= seq![]);
        }
    }

    /// Whether the preferences changed since the last call; the host saves
    /// them when it is told so.
    pub fn take_preferences_changed(&mut self) -> (r: bool)
        ensures
            r == old(self)@.preferences_changed,
            final(self)@ == (AppView { preferences_changed: false, ..old(self)@ }),
    {
        let r = self.preferences_changed;
        self.preferences_changed = false;
        r
    }

    /// Whether a new inventory was asked for since the last call.
    pub fn take_inventory_refresh_request(&mut self) -> (r: bool)
        ensures
            r == old(self)@.inventory_refresh_requested,
            final(self)@ == (AppView { inventory_refresh_requested: false, ..old(self)@ }),
    {
        let r = self.inventory_refresh_requested;
        self.inventory_refresh_requested = false;
        r
    }

    /// Whether the direct preview settings changed since the last call; the
    /// host hands them to its runtime when it is told so.
    pub fn take_direct_preview_config_change(&mut self) -> (r: bool)
        ensures
            r == old(self)@.preview_config_changed,
            final(self)@ == (AppView { preview_config_changed: false, ..old(self)@ }),
    {
        let r = self.direct_preview_config_changed;
        self.direct_preview_config_changed = false;
        r
    }
}

} // verus!
