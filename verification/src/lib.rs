//! Verified logic of the iOS Control host desktop shell: device inventory,
//! view models, preferences, pointer and keyboard mapping, and the host's
//! session state machine.
use vstd::prelude::*;

pub mod app;
pub mod bootstrap;
pub mod host_path;
pub mod inventory;
pub mod logging;
pub mod ordered;
pub mod panels;
pub mod preferences;
pub mod preview;
pub mod protocol;
pub mod runtime;
pub mod text;
pub mod view_models;

verus! {
} // verus!
