//! The dashboard's counts.
use vstd::prelude::*;
use crate::protocol::{DeviceSessionSummary, SessionPhase};

verus! {

/// How many devices there are and how many of them need attention.
#[derive(Debug, Clone, Copy, PartialEq, Eq, Structural)]
pub struct DashboardViewModel {
    pub total_devices: usize,
    pub degraded_devices: usize,
}

/// How many sessions are degraded.
pub open spec fn degraded_count(sessions: Seq<DeviceSessionSummary>) -> nat
    decreases sessions.len(),
{
    if sessions.len() == 0 {
        0
    } else {
        degraded_count(sessions.drop_last()) + if sessions.last().phase == SessionPhase::Degraded {
            1nat
        } else {
            0nat
        }
    }
}

impl DashboardViewModel {
    /// Counts the sessions and the degraded ones among them.
    pub fn from_sessions(sessions: &[DeviceSessionSummary]) -> (r: Self)
        ensures
            r.total_devices == sessions@.len(),
            r.degraded_devices == degraded_count(sessions@),
    {
        let n = sessions.len();
        let mut degraded: usize = 0;
        let mut i: usize = 0;
        while i < n
            invariant
                n == sessions@.len(),
                i <= n,
                degraded == degraded_count(sessions@.subrange(0, i as int)),
                degraded <= i,
            decreases n - i,
        {
            assert(sessions@.subrange(0, i + 1).drop_last() =~= sessions@.subrange(0, i as int));
            if sessions[i].phase == SessionPhase::Degraded {
                degraded = degraded + 1;
            }
            i = i + 1;
        }
        assert(sessions@.subrange(0, n as int) =~= sessions@);
        DashboardViewModel { total_devices: n, degraded_devices: degraded }
    }

    /// The counts of the inventory rows.
    pub fn from_inventory_rows(rows: usize, degraded_devices: usize) -> (r: Self)
        ensures
            r.total_devices == rows,
            r.degraded_devices == degraded_devices,
    {
        DashboardViewModel { total_devices: rows, degraded_devices }
    }
}

} // verus!
