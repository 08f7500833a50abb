//! The data that the host exchanges with its capture, control and session
//! runtime: capabilities, sources, frames, session statuses and input events.
use vstd::prelude::*;

verus! {

/// What a capture plugin reports when probed.
#[derive(Debug, PartialEq, Eq)]
pub struct CaptureCapability {
    pub backend_id: String,
    pub available: bool,
    pub reason: Option<String>,
}

/// What a control plugin reports when probed.
#[derive(Debug, PartialEq, Eq)]
pub struct ControlCapability {
    pub backend_id: String,
    /// The transport's name as the plugin reports it (for example `Ble`).
    pub transport: String,
    pub supported: bool,
    pub reason: Option<String>,
}

/// The kind of a capture source.
#[derive(Debug, Clone, Copy, PartialEq, Eq, Structural)]
pub enum SourceKind {
    Window,
    DirectReceiver,
}

/// A source that a capture plugin can stream from.
#[derive(Debug, PartialEq, Eq)]
pub struct VideoSource {
    pub source_id: String,
    pub display_name: String,
    pub kind: SourceKind,
}

/// The characters of a [`VideoSource`].
pub struct SourceView {
    pub source_id: Seq<char>,
    pub display_name: Seq<char>,
    pub kind: SourceKind,
}

impl View for VideoSource {
    type V = SourceView;

    open spec fn view(&self) -> SourceView {
        SourceView { source_id: self.source_id@, display_name: self.display_name@, kind: self.kind }
    }
}

/// The views of a sequence of sources.
pub open spec fn source_views(s: Seq<VideoSource>) -> Seq<SourceView> {
    s.map_values(|v: VideoSource| v@)
}

/// How a captured frame looked to the capture plugin.
#[derive(Debug, Clone, Copy, PartialEq, Eq, Structural)]
pub enum FrameHealth {
    Healthy,
    Occluded,
}

/// One captured frame.
#[derive(Debug, PartialEq, Eq)]
pub struct VideoFrameDescriptor {
    pub source_id: String,
    pub source_kind: SourceKind,
    pub width: u32,
    pub height: u32,
    pub rotation_degrees: u16,
    pub frame_index: u64,
    pub health: FrameHealth,
}

impl Clone for VideoFrameDescriptor {
    fn clone(&self) -> (r: Self)
        ensures
            r == *self,
    {
        VideoFrameDescriptor {
            source_id: self.source_id.clone(),
            source_kind: self.source_kind,
            width: self.width,
            height: self.height,
            rotation_degrees: self.rotation_degrees,
            frame_index: self.frame_index,
            health: self.health,
        }
    }
}

/// Where the capture plugin writes the frames of a stream.
#[derive(Debug, PartialEq, Eq)]
pub struct CaptureStreamDescriptor {
    pub source_id: String,
    pub source_kind: SourceKind,
    pub width: u32,
    pub height: u32,
    pub rotation_degrees: u16,
    pub slot_bytes: u64,
    pub slot_path: String,
}

/// The capture plugin's own account of its stream.
#[derive(Debug, PartialEq, Eq)]
pub struct CaptureStatus {
    pub detail: Option<String>,
}

/// The phase of a device session as the runtime reports it.
#[derive(Debug, Clone, Copy, PartialEq, Eq, Structural)]
pub enum SessionPhase {
    Connecting,
    Streaming,
    Degraded,
}

/// The health of the plugins behind a session.
#[derive(Debug, Clone, Copy, PartialEq, Eq, Structural)]
pub enum PluginHealth {
    Healthy,
    Degraded,
}

/// The detailed state of a device session.
#[derive(Debug, Clone, Copy, PartialEq, Eq, Structural)]
pub enum SessionSubstate {
    Discovering,
    StartingCapture,
    StartingControl,
    ControlReady,
    Streaming,
    Recovering,
    OperatorActionRequired,
    DegradedCapture,
    DegradedControl,
    Stopped,
}

/// The phase of the control link.
#[derive(Debug, Clone, Copy, PartialEq, Eq, Structural)]
pub enum ControlSessionPhase {
    Idle,
    Advertising,
    Connected,
    Error,
}

/// Summary of one device session.
#[derive(Debug, PartialEq, Eq)]
pub struct DeviceSessionSummary {
    pub device_id: String,
    pub device_name: String,
    pub phase: SessionPhase,
    pub plugin_health: PluginHealth,
    pub capture_plugin: Option<String>,
    pub control_plugin: Option<String>,
    pub grounding_plugin: Option<String>,
}

/// The capture and control backends that a session runs on.
#[derive(Debug, PartialEq, Eq)]
pub struct BackendSelection {
    pub capture_backend: String,
    pub control_backend: String,
}

/// The runtime's status of one device session.
#[derive(Debug, PartialEq, Eq)]
pub struct DeviceSessionStatus {
    pub summary: DeviceSessionSummary,
    pub substate: SessionSubstate,
    pub backends: BackendSelection,
    pub operator_action: Option<String>,
}

/// The runtime's diagnostics of one session.
#[derive(Debug, PartialEq, Eq)]
pub struct SessionDiagnostics {
    pub control_phase: ControlSessionPhase,
    pub control_summary: String,
    pub grounding_summary: Option<String>,
}

/// What forwarding one input event achieved.
#[derive(Debug, PartialEq, Eq)]
pub struct ExecutionSummary {
    pub summary: String,
    pub phase: ControlSessionPhase,
}

/// One mouse report for the BLE HID link.
#[derive(Debug, Clone, Copy, PartialEq, Eq, Structural, Default)]
pub struct MouseInputReport {
    pub buttons: u8,
    pub dx: i16,
    pub dy: i16,
    pub wheel: i8,
}

/// Modifier keys of a keyboard report.
#[derive(Debug, Clone, Copy, PartialEq, Eq, Structural, Default)]
pub struct KeyModifiers {
    pub shift: bool,
    pub alt: bool,
    pub ctrl: bool,
    pub meta: bool,
}

/// One keyboard report for the BLE HID link.
#[derive(Debug, Clone, Copy, PartialEq, Eq, Structural)]
pub struct KeyboardInputReport {
    pub usage_id: u8,
    pub modifiers: KeyModifiers,
    pub pressed: bool,
}

/// One input event forwarded to the device.
#[derive(Debug, PartialEq, Eq)]
pub enum ControlInputEvent {
    Mouse(MouseInputReport),
    MouseSequence(Vec<MouseInputReport>),
    Keyboard(KeyboardInputReport),
    Text(String),
}

impl DeviceSessionStatus {
    /// The session's summary.
    pub fn summary(&self) -> (r: &DeviceSessionSummary)
        ensures
            r == &self.summary,
    {
        &self.summary
    }

    /// The session's detailed state.
    pub fn substate(&self) -> (r: SessionSubstate)
        ensures
            r == self.substate,
    {
        self.substate
    }

    /// The backends the session runs on.
    pub fn backends(&self) -> (r: &BackendSelection)
        ensures
            r == &self.backends,
    {
        &self.backends
    }

    /// What the operator has to do, if anything.
    pub fn operator_action(&self) -> (r: Option<&str>)
        ensures
            r is Some <==> self.operator_action is Some,
            r is Some ==> r->0@ == self.operator_action->0@,
    {
        match &self.operator_action {
            Some(action) => Some(action.as_str()),
            None => None,
        }
    }
}

} // verus!
