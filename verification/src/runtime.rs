//! What the session runtime reports about a device session.
use vstd::prelude::*;
use crate::bootstrap::model::PluginPaths;
use crate::protocol::{
    CaptureStatus, CaptureStreamDescriptor, ControlSessionPhase, DeviceSessionStatus,
    DeviceSessionSummary, SessionDiagnostics, VideoFrameDescriptor, VideoSource,
};

verus! {

/// How the host starts its runtime.
#[derive(Debug, PartialEq, Eq)]
pub struct HostRuntimeConfig {
    pub plugin_paths: PluginPaths,
}

/// The workspace of the selected device's session.
#[derive(Debug, PartialEq, Eq)]
pub struct RuntimeWorkspaceState {
    pub device_id: String,
    pub summary: DeviceSessionSummary,
    pub capture_sources: Vec<VideoSource>,
    pub capture_stream: Option<CaptureStreamDescriptor>,
    pub capture_status: Option<CaptureStatus>,
    pub latest_frame: Option<VideoFrameDescriptor>,
    pub selected_source_id: Option<String>,
    /// The runtime's control setup checklist.
    pub control_checklist: Vec<String>,
    pub control_phase: ControlSessionPhase,
    pub execution_observed_change: Option<bool>,
    pub diagnostics: SessionDiagnostics,
}

/// The statuses of all sessions and the workspace of one.
#[derive(Debug, PartialEq, Eq)]
pub struct HostRuntimeSnapshot {
    pub statuses: Vec<DeviceSessionStatus>,
    pub workspace: RuntimeWorkspaceState,
}

} // verus!
