//! The session pane: what the current session is doing and which buttons are
//! offered.
use vstd::prelude::*;
use crate::inventory::model::opt_view;
use crate::panels::device_detail::{opt_option_view, CaptureSourceOption, SourceOptionView};
use crate::protocol::VideoFrameDescriptor;

verus! {

/// The state that the session pane shows.
#[derive(Debug, PartialEq, Eq)]
pub enum SessionUiState {
    Idle,
    Starting,
    WaitingForMirror,
    Streaming,
    Error(String),
}

/// The session pane's data.
#[derive(Debug, PartialEq, Eq)]
pub struct SessionViewModel {
    pub ui_state: SessionUiState,
    pub selected_source: Option<CaptureSourceOption>,
    pub latest_frame: Option<VideoFrameDescriptor>,
    pub start_enabled: bool,
    pub status_detail: Option<String>,
}

/// The state of the session pane, with its message as characters.
pub enum UiStateView {
    Idle,
    Starting,
    WaitingForMirror,
    Streaming,
    Error(Seq<char>),
}

/// The session pane's data, with its texts as characters.
pub struct SessionView {
    pub ui_state: UiStateView,
    pub selected_source: Option<SourceOptionView>,
    pub latest_frame: Option<VideoFrameDescriptor>,
    pub start_enabled: bool,
    pub status_detail: Option<Seq<char>>,
}

impl View for SessionViewModel {
    type V = SessionView;

    open spec fn view(&self) -> SessionView {
        SessionView {
            ui_state: match self.ui_state {
                SessionUiState::Idle => UiStateView::Idle,
                SessionUiState::Starting => UiStateView::Starting,
                SessionUiState::WaitingForMirror => UiStateView::WaitingForMirror,
                SessionUiState::Streaming => UiStateView::Streaming,
                SessionUiState::Error(m) => UiStateView::Error(m@),
            },
            selected_source: opt_option_view(self.selected_source),
            latest_frame: self.latest_frame,
            start_enabled: self.start_enabled,
            status_detail: opt_view(self.status_detail),
        }
    }
}

/// The pane with no session and nothing to start.
pub open spec fn idle_view() -> SessionView {
    SessionView {
        ui_state: UiStateView::Idle,
        selected_source: None,
        latest_frame: None,
        start_enabled: false,
        status_detail: None,
    }
}

/// The pane while a session start is under way.
pub open spec fn starting_view() -> SessionView {
    SessionView { ui_state: UiStateView::Starting, ..idle_view() }
}

/// The pane of a session that failed with `message`.
pub open spec fn error_view(message: Seq<char>) -> SessionView {
    SessionView { ui_state: UiStateView::Error(message), start_enabled: true, ..idle_view() }
}

/// The pane of a device that cannot start yet, for the reason in `message`.
pub open spec fn blocked_view(message: Seq<char>, source: Option<SourceOptionView>) -> SessionView {
    SessionView {
        ui_state: UiStateView::Error(message),
        selected_source: source,
        start_enabled: source is Some,
        ..idle_view()
    }
}

/// The pane of a device that is ready to start on `source`.
pub open spec fn idle_startable_view(source: Option<SourceOptionView>) -> SessionView {
    SessionView { selected_source: source, start_enabled: true, ..idle_view() }
}

/// The pane of a direct session that waits for the phone's mirror.
pub open spec fn waiting_view(source: Option<SourceOptionView>) -> SessionView {
    SessionView { ui_state: UiStateView::WaitingForMirror, selected_source: source, ..idle_view() }
}

/// The pane of a streaming session.
pub open spec fn streaming_view(source: SourceOptionView, frame: Option<VideoFrameDescriptor>) -> SessionView {
    SessionView {
        ui_state: UiStateView::Streaming,
        selected_source: Some(source),
        latest_frame: frame,
        ..idle_view()
    }
}

/// A session can be started from the idle and error states when starting is
/// enabled.
pub open spec fn can_start_spec(view_model: SessionViewModel) -> bool {
    view_model.start_enabled && (view_model.ui_state is Idle || view_model.ui_state is Error)
}

impl SessionViewModel {
    /// No session and nothing to start.
    pub fn idle() -> (r: Self)
        ensures
            r.ui_state is Idle,
            r.selected_source is None,
            r.latest_frame is None,
            !r.start_enabled,
            r.status_detail is None,
    {
        SessionViewModel {
            ui_state: SessionUiState::Idle,
            selected_source: None,
            latest_frame: None,
            start_enabled: false,
            status_detail: None,
        }
    }

    /// No session yet, ready to start on the given source.
    pub fn idle_startable(selected_source: Option<CaptureSourceOption>) -> (r: Self)
        ensures
            r.ui_state is Idle,
            r.selected_source == selected_source,
            r.latest_frame is None,
            r.start_enabled,
            r.status_detail is None,
    {
        SessionViewModel {
            ui_state: SessionUiState::Idle,
            selected_source,
            latest_frame: None,
            start_enabled: true,
            status_detail: None,
        }
    }

    /// A session start is under way.
    pub fn starting() -> (r: Self)
        ensures
            r.ui_state is Starting,
            r.selected_source is None,
            r.latest_frame is None,
            !r.start_enabled,
            r.status_detail is None,
    {
        SessionViewModel {
            ui_state: SessionUiState::Starting,
            selected_source: None,
            latest_frame: None,
            start_enabled: false,
            status_detail: None,
        }
    }

    /// A direct-receiver session waits for the phone to start mirroring.
    pub fn waiting_for_mirror(selected_source: Option<CaptureSourceOption>) -> (r: Self)
        ensures
            r.ui_state is WaitingForMirror,
            r.selected_source == selected_source,
            r.latest_frame is None,
            !r.start_enabled,
            r.status_detail is None,
    {
        SessionViewModel {
            ui_state: SessionUiState::WaitingForMirror,
            selected_source,
            latest_frame: None,
            start_enabled: false,
            status_detail: None,
        }
    }

    /// A session streams frames from the given source.
    pub fn streaming(selected_source: CaptureSourceOption, latest_frame: VideoFrameDescriptor) -> (r:
        Self)
        ensures
            r.ui_state is Streaming,
            r.selected_source == Some(selected_source),
            r.latest_frame == Some(latest_frame),
            !r.start_enabled,
            r.status_detail is None,
    {
        SessionViewModel {
            ui_state: SessionUiState::Streaming,
            selected_source: Some(selected_source),
            latest_frame: Some(latest_frame),
            start_enabled: false,
            status_detail: None,
        }
    }

    /// A session streams from the given source, with no frame yet.
    pub fn streaming_without_frame(selected_source: CaptureSourceOption) -> (r: Self)
        ensures
            r.ui_state is Streaming,
            r.selected_source == Some(selected_source),
            r.latest_frame is None,
            !r.start_enabled,
            r.status_detail is None,
    {
        SessionViewModel {
            ui_state: SessionUiState::Streaming,
            selected_source: Some(selected_source),
            latest_frame: None,
            start_enabled: false,
            status_detail: None,
        }
    }

    /// A session failed with `message`; starting again is offered.
    pub fn error(message: &str) -> (r: Self)
        ensures
            r.ui_state matches SessionUiState::Error(m) && m@ == message@,
            r.selected_source is None,
            r.latest_frame is None,
            r.start_enabled,
            r.status_detail is None,
    {
        SessionViewModel {
            ui_state: SessionUiState::Error(crate::text::owned(message)),
            selected_source: None,
            latest_frame: None,
            start_enabled: true,
            status_detail: None,
        }
    }

    /// A session cannot start yet, for the reason in `message`; starting is
    /// offered only when a source is chosen.
    pub fn blocked(message: &str, selected_source: Option<CaptureSourceOption>) -> (r: Self)
        ensures
            r.ui_state matches SessionUiState::Error(m) && m@ == message@,
            r.selected_source == selected_source,
            r.latest_frame is None,
            r.start_enabled == selected_source is Some,
            r.status_detail is None,
    {
        let start_enabled = selected_source.is_some();
        SessionViewModel {
            ui_state: SessionUiState::Error(crate::text::owned(message)),
            selected_source,
            latest_frame: None,
            start_enabled,
            status_detail: None,
        }
    }

    /// The same view with the capture plugin's detail attached.
    pub fn with_status_detail(self, status_detail: Option<String>) -> (r: Self)
        ensures
            r == (SessionViewModel { status_detail, ..self }),
    {
        SessionViewModel { status_detail, ..self }
    }

    /// Whether the Start button is enabled.
    pub fn can_start(&self) -> (r: bool)
        ensures
            r == can_start_spec(*self),
    {
        self.start_enabled && match self.ui_state {
            SessionUiState::Idle | SessionUiState::Error(_) => true,
            _ => false,
        }
    }

    /// Whether the Stop button is enabled: only while streaming.
    pub fn can_stop(&self) -> (r: bool)
        ensures
            r == self.ui_state is Streaming,
    {
        match self.ui_state {
            SessionUiState::Streaming => true,
            _ => false,
        }
    }

    /// The one-line status of the session pane.
    pub fn status_line(&self) -> (r: &str)
        ensures
            r@ == (match self.ui_state {
                SessionUiState::Idle => "No active session"@,
                SessionUiState::Starting => "Starting session"@,
                SessionUiState::WaitingForMirror => "Waiting for mirror"@,
                SessionUiState::Streaming => "Streaming session"@,
                SessionUiState::Error(message) => message@,
            }),
    {
        match &self.ui_state {
            SessionUiState::Idle => "No active session",
            SessionUiState::Starting => "Starting session",
            SessionUiState::WaitingForMirror => "Waiting for mirror",
            SessionUiState::Streaming => "Streaming session",
            SessionUiState::Error(message) => message.as_str(),
        }
    }
}

} // verus!
