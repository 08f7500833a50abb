//! Where the runtime's plugins are.
use vstd::prelude::*;

verus! {

/// Whether the host runs from a packaged bundle or a build tree.
#[derive(Debug, Clone, Copy, PartialEq, Eq, Structural)]
pub enum RuntimeLayoutKind {
    Workspace,
    Bundle,
}

/// The executables of the runtime's plugins.
#[derive(Debug, PartialEq, Eq)]
pub struct PluginPaths {
    pub capture: String,
    pub capture_direct: String,
    pub capture_direct_runtime_root: Option<String>,
    pub control_ble: String,
    pub control_fallback: String,
    pub grounding: Option<String>,
}

/// Where the runtime was found.
#[derive(Debug, PartialEq, Eq)]
pub struct RuntimeLayout {
    pub kind: RuntimeLayoutKind,
    pub root: String,
    pub plugin_paths: PluginPaths,
    /// Helper executables by name.
    pub helper_paths: Vec<(String, String)>,
}

} // verus!
