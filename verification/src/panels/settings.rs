//! The settings pane's actions.
use vstd::prelude::*;

verus! {

/// What the operator changed in the settings pane; `None` inside a variant
/// resets the setting to its default.
#[derive(Debug, Clone, Copy, PartialEq, Eq, Structural)]
pub enum SettingsAction {
    NoAction,
    SetBlePointerLongAxisUnits(Option<u32>),
    SetDirectPreviewFps(Option<u32>),
    SetDirectPreviewHeight(Option<u32>),
}

} // verus!
