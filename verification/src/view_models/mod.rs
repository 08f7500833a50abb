//! The data that the host's panels show.
pub mod dashboard;
pub mod device_detail;
pub mod diagnostics;
pub mod fleet;
pub mod session;
pub mod settings;
pub mod startup;
