//! The data behind the host's panels and the actions they report.
pub mod dashboard;
pub mod device_detail;
pub mod launcher;
pub mod session_view;
pub mod settings;
pub mod startup;
