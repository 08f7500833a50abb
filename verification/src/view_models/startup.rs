//! The startup pane: which runtime components were found ready.
use vstd::prelude::*;

verus! {

/// How ready the host is to run a session.
#[derive(Debug, Clone, Copy, PartialEq, Eq, Structural)]
pub enum StartupReadiness {
    Ready,
    Partial,
    Blocked,
}

/// One runtime component and what its probe found.
#[derive(Debug, PartialEq, Eq)]
pub struct StartupItem {
    pub label: String,
    pub status: String,
    pub detail: String,
}

/// Whether the direct receiver can be started.
#[derive(Debug, PartialEq, Eq)]
pub struct DirectReceiverViewModel {
    pub available: bool,
    pub status: String,
    pub detail: String,
}

/// The startup pane's data.
#[derive(Debug, PartialEq, Eq)]
pub struct StartupViewModel {
    pub readiness: StartupReadiness,
    pub summary: String,
    pub items: Vec<StartupItem>,
    pub direct_receiver: DirectReceiverViewModel,
}

impl StartupViewModel {
    /// Nothing is ready, for the reason in `summary`; the direct receiver is
    /// unavailable.
    pub fn blocked(summary: &str) -> (r: Self)
        ensures
            r.readiness == StartupReadiness::Blocked,
            r.summary@ == summary@,
            r.items@.len() == 0,
            !r.direct_receiver.available,
            r.direct_receiver.status@ == "Blocked"@,
            r.direct_receiver.detail@ == "Direct receiver unavailable"@,
    {
        StartupViewModel {
            readiness: StartupReadiness::Blocked,
            summary: crate::text::owned(summary),
            items: Vec::new(),
            direct_receiver: DirectReceiverViewModel {
                available: false,
                status: crate::text::owned("Blocked"),
                detail: crate::text::owned("Direct receiver unavailable"),
            },
        }
    }
}

} // verus!
