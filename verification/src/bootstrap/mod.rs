//! Startup: where the runtime's plugins are and what they can do.
use vstd::prelude::*;
use crate::view_models::startup::StartupViewModel;
use model::RuntimeLayout;

pub mod capability_probe;
pub mod model;
pub mod runtime_locator;

verus! {

/// What the host found at startup: where its runtime is, and what the probe
/// of its plugins showed.
#[derive(Debug, PartialEq, Eq)]
pub struct HostBootstrap {
    pub layout: RuntimeLayout,
    pub startup: StartupViewModel,
}

} // verus!
