//! Taking in a new inventory: rows that Bluetooth briefly stops reporting are
//! kept for a few refreshes, the refresh is counted, and the panes follow.
use vstd::prelude::*;
use crate::inventory::model::{device_views, DeviceView, InventoryDevice, InventorySnapshot};
use crate::ordered::texts;
use crate::text::decimal;
use crate::view_models::diagnostics::{sat_inc, 
    blocked_views, keep_last, lemma_count_views, startable_views, DiagnosticsView,
};
use crate::view_models::startup::StartupViewModel;
use super::detail::{is_transient_bluetooth_row, is_transient_spec};
use super::navigation::{contains_id, sync_spec};
use super::workspace::wf;
use super::{keeps_runtime, with_log_line, AppView, HostDesktopApp, INVENTORY_MISSED_REFRESH_GRACE, INVENTORY_REFRESH_POLL_INTERVAL_MS};

verus! {

/// The inventory ids of rows.
pub open spec fn inventory_ids(devices: Seq<DeviceView>) -> Seq<Seq<char>> {
    devices.map_values(|d: DeviceView| d.inventory_id)
}

/// The counts without those of the given ids.
pub open spec fn remove_all(m: Map<Seq<char>, u8>, ids: Seq<Seq<char>>) -> Map<Seq<char>, u8>
    decreases ids.len(),
{
    if ids.len() == 0 {
        m
    } else {
        remove_all(m, ids.drop_last()).remove(ids.last())
    }
}

/// Going through the previous rows in order: a live Bluetooth row that the
/// new inventory lacks is kept, and its missed count goes up, until it has
/// been missed the grace number of times; then it expires.
/// Gives the kept rows, the counts, and the expired ids.
pub open spec fn carry_spec(prev: Seq<DeviceView>, current_ids: Seq<Seq<char>>, m: Map<Seq<char>, u8>) -> (
    Seq<DeviceView>,
    Map<Seq<char>, u8>,
    Seq<Seq<char>>,
)
    decreases prev.len(),
{
    if prev.len() == 0 {
        (seq![], m, seq![])
    } else {
        let r = carry_spec(prev.drop_last(), current_ids, m);
        let p = prev.last();
        let id = p.inventory_id;
        if current_ids.contains(id) || !is_transient_spec(p) {
            r
        } else {
            let count: u8 = if r.1.contains_key(id) { r.1[id] } else { 0u8 };
            if count >= INVENTORY_MISSED_REFRESH_GRACE {
                (r.0, r.1, r.2.push(id))
            } else {
                (r.0.push(p), r.1.insert(id, (count + 1) as u8), r.2)
            }
        }
    }
}

/// The inventory that is kept, and the missed counts after it: the new rows
/// (whose counts are dropped), then the previous rows still within grace.
pub open spec fn stabilize_spec(prev: Seq<DeviceView>, missed: Map<Seq<char>, u8>, current: Seq<DeviceView>) -> (
    Seq<DeviceView>,
    Map<Seq<char>, u8>,
) {
    let ids = inventory_ids(current);
    let r = carry_spec(prev, ids, remove_all(missed, ids));
    (current + r.0, remove_all(r.1, r.2))
}

/// The log line of an inventory refresh.
pub open spec fn inventory_line(devices: Seq<DeviceView>) -> Seq<char> {
    "inventory snapshot total="@ + decimal(devices.len()) + " startable="@ + decimal(
        startable_views(devices),
    ) + " blocked="@ + decimal(blocked_views(devices))
}

/// Taking in a new inventory: rows within grace are kept, the refresh is
/// counted with its row counts and logged, and the panes follow.
#[verifier::opaque]
pub open spec fn apply_inventory_spec(s: AppView, current: Seq<DeviceView>) -> AppView {
    let (devices, missed) = stabilize_spec(s.inventory, s.missed, current);
    let line = inventory_line(devices);
    sync_spec(
        with_log_line(
            AppView {
                inventory: devices,
                missed,
                diagnostics: DiagnosticsView {
                    inventory_refreshes: sat_inc(s.diagnostics.inventory_refreshes),
                    inventory_rows: devices.len() as u64,
                    inventory_startable_rows: startable_views(devices) as u64,
                    inventory_blocked_rows: blocked_views(devices) as u64,
                    log_lines: keep_last(s.diagnostics.log_lines.push(line)),
                    ..s.diagnostics
                },
                ..s
            },
            line,
        ),
    )
}

/// A new inventory is due: the host collects one when it has plugin paths;
/// without them the inventory becomes empty at once.
#[verifier::opaque]
pub open spec fn inventory_refresh_spec(s: AppView) -> AppView {
    if s.runtime_configured {
        AppView { inventory_refresh_requested: true, ..s }
    } else {
        apply_inventory_spec(s, seq![])
    }
}

/// The inventory refresh timer: without plugin paths there is none; when it
/// is due (or not yet set) it is set the poll interval ahead and a refresh is
/// due.
#[verifier::opaque]
pub open spec fn poll_inventory_spec(s: AppView, now: u64) -> AppView {
    if !s.runtime_configured {
        AppView { next_inventory_refresh_at: None, ..s }
    } else if s.next_inventory_refresh_at matches Some(next) && now < next {
        s
    } else {
        inventory_refresh_spec(
            AppView {
                next_inventory_refresh_at: Some((now + INVENTORY_REFRESH_POLL_INTERVAL_MS) as u64),
                ..s
            },
        )
    }
}

/// Showing a startup probe: it is counted and logged, and the startup pane
/// shows it.
#[verifier::opaque]
pub open spec fn startup_view_spec(s: AppView, startup: StartupViewModel) -> AppView {
    let line = "startup probe "@ + startup.summary@;
    with_log_line(
        AppView {
            startup,
            diagnostics: DiagnosticsView {
                startup_probe_runs: sat_inc(s.diagnostics.startup_probe_runs),
                log_lines: keep_last(s.diagnostics.log_lines.push(line)),
                ..s.diagnostics
            },
            ..s
        },
        line,
    )
}

fn inventory_id_list(devices: &Vec<InventoryDevice>) -> (r: Vec<String>)
    ensures
        texts(r@) == inventory_ids(device_views(devices@)),
{
    let mut r: Vec<String> = Vec::new();
    let n = devices.len();
    let mut i: usize = 0;
    while i < n
        invariant
            n == devices@.len(),
            i <= n,
            texts(r@) == inventory_ids(device_views(devices@.subrange(0, i as int))),
        decreases n - i,
    {
        let ghost before = r@;
        r.push(devices[i].inventory_id.clone());
        proof {
            assert(texts(r@) =~= texts(before).push(devices@[i as int].inventory_id@));
            assert(inventory_ids(device_views(devices@.subrange(0, i + 1))) =~= inventory_ids(
                device_views(devices@.subrange(0, i as int)),
            ).push(devices@[i as int].inventory_id@));
        }
        i = i + 1;
    }
    assert(devices@.subrange(0, n as int) =~= devices@);
    r
}

impl HostDesktopApp {
    fn forget_missed(&mut self, ids: &Vec<String>)
        ensures
            keeps_runtime(old(self)@, final(self)@),
            final(self)@ == (AppView { missed: remove_all(old(self)@.missed, texts(ids@)), ..old(self)@ }),
    {
        let n = ids.len();
        let mut i: usize = 0;
        while i < n
            invariant
                n == ids@.len(),
                i <= n,
                self@ == (AppView { missed: remove_all(old(self)@.missed, texts(ids@).subrange(0, i as int)), ..old(self)@ }),
            decreases n - i,
        {
            assert(texts(ids@).subrange(0, i + 1).drop_last() =~= texts(ids@).subrange(0, i as int));
            self.inventory_missed_refreshes.remove(ids[i].as_str());
            i = i + 1;
        }
        assert(texts(ids@).subrange(0, n as int) =~= texts(ids@));
    }

    fn carry_previous_rows(&mut self, current_ids: &Vec<String>) -> (r: (Vec<InventoryDevice>, Vec<String>))
        ensures
            keeps_runtime(old(self)@, final(self)@),
            device_views(r.0@) == carry_spec(old(self)@.inventory, texts(current_ids@), old(self)@.missed).0,
            texts(r.1@) == carry_spec(old(self)@.inventory, texts(current_ids@), old(self)@.missed).2,
            final(self)@ == (AppView {
                missed: carry_spec(old(self)@.inventory, texts(current_ids@), old(self)@.missed).1,
                ..old(self)@
            }),
    {
        let ghost s = self@;
        let ghost ids = texts(current_ids@);
        let mut carried: Vec<InventoryDevice> = Vec::new();
        let mut expired: Vec<String> = Vec::new();
        let n = self.inventory_snapshot.devices.len();
        let mut i: usize = 0;
        while i < n
            invariant
                n == self.inventory_snapshot.devices@.len(),
                s.inventory == device_views(self.inventory_snapshot.devices@),
                ids == texts(current_ids@),
                i <= n,
                device_views(carried@) == carry_spec(s.inventory.subrange(0, i as int), ids, s.missed).0,
                texts(expired@) == carry_spec(s.inventory.subrange(0, i as int), ids, s.missed).2,
                self@ == (AppView {
                    missed: carry_spec(s.inventory.subrange(0, i as int), ids, s.missed).1,
                    ..s
                }),
            decreases n - i,
        {
            assert(s.inventory.subrange(0, i + 1).drop_last() =~= s.inventory.subrange(0, i as int));
            assert(s.inventory.subrange(0, i + 1).last() == self.inventory_snapshot.devices@[i as int]@);
            let previous = &self.inventory_snapshot.devices[i];
            let listed = contains_id(current_ids, previous.inventory_id.as_str());
            if !listed && is_transient_bluetooth_row(previous) {
                let id = previous.inventory_id.clone();
                let count: u8 = match self.inventory_missed_refreshes.get(id.as_str()) {
                    Some(c) => c,
                    None => 0,
                };
                if count >= INVENTORY_MISSED_REFRESH_GRACE {
                    let ghost before = expired@;
                    expired.push(id);
                    proof {
                        assert(texts(expired@) =~= texts(before).push(previous@.inventory_id));
                    }
                } else {
                    let row = previous.clone();
                    self.inventory_missed_refreshes.set(id.as_str(), count + 1);
                    let ghost before = carried@;
                    carried.push(row);
                    proof {
                        assert(device_views(carried@) =~= device_views(before).push(previous@));
                    }
                }
            }
            i = i + 1;
        }
        assert(s.inventory.subrange(0, n as int) =~= s.inventory);
        (carried, expired)
    }

    /// Keeps the live Bluetooth rows that a new inventory lacks, each for a
    /// grace number of refreshes.
    pub fn stabilize_inventory_snapshot(&mut self, snapshot: InventorySnapshot) -> (r: InventorySnapshot)
        ensures
            keeps_runtime(old(self)@, final(self)@),
            device_views(r.devices@) == stabilize_spec(
                old(self)@.inventory,
                old(self)@.missed,
                device_views(snapshot.devices@),
            ).0,
            final(self)@ == (AppView {
                missed: stabilize_spec(
                    old(self)@.inventory,
                    old(self)@.missed,
                    device_views(snapshot.devices@),
                ).1,
                ..old(self)@
            }),
    {
        let mut snapshot = snapshot;
        let ids = inventory_id_list(&snapshot.devices);
        self.forget_missed(&ids);
        let (carried, expired) = self.carry_previous_rows(&ids);
        let ghost head = snapshot.devices@;
        let m = carried.len();
        let mut j: usize = 0;
        while j < m
            invariant
                m == carried@.len(),
                j <= m,
                device_views(snapshot.devices@) == device_views(head) + device_views(carried@).subrange(0, j as int),
            decreases m - j,
        {
            let ghost before = snapshot.devices@;
            snapshot.devices.push(carried[j].clone());
            proof {
                assert(device_views(snapshot.devices@) =~= device_views(before).push(carried@[j as int]@));
                assert(device_views(carried@).subrange(0, j + 1) =~= device_views(carried@).subrange(0, j as int).push(
                    carried@[j as int]@,
                ));
            }
            j = j + 1;
        }
        assert(device_views(carried@).subrange(0, m as int) =~= device_views(carried@));
        self.forget_missed(&expired);
        snapshot
    }

    /// Takes in a new inventory: rows within grace are kept, the refresh is
    /// counted and logged, and the panes follow.
    pub fn apply_inventory_snapshot(&mut self, snapshot: InventorySnapshot)
        requires
            wf(old(self)@),
        ensures
            keeps_runtime(old(self)@, final(self)@),
            final(self)@ == apply_inventory_spec(old(self)@, device_views(snapshot.devices@)),
    {
        proof {
            reveal(apply_inventory_spec);
        }
        let snapshot = self.stabilize_inventory_snapshot(snapshot);
        let line = self.diagnostics.record_inventory_snapshot(&snapshot);
        proof {
            lemma_count_views(snapshot.devices@);
        }
        self.log_line(line);
        self.inventory_snapshot = snapshot;
        self.sync_from_inventory_and_runtime();
    }

    /// Asks for a new inventory: the host collects one when it has plugin
    /// paths; without them the inventory becomes empty at once.
    pub fn refresh_inventory(&mut self)
        requires
            wf(old(self)@),
        ensures
            keeps_runtime(old(self)@, final(self)@),
            final(self)@ == inventory_refresh_spec(old(self)@),
    {
        proof {
            reveal(inventory_refresh_spec);
        }
        if self.runtime_configured {
            self.inventory_refresh_requested = true;
        } else {
            let empty = InventorySnapshot { devices: Vec::new() };
            proof {
                assert(device_views(empty.devices@) =~= seq![]);
            }
            self.apply_inventory_snapshot(empty);
        }
    }

    /// Runs the inventory refresh timer at the host's time `now` (in
    /// milliseconds).
    pub fn poll_inventory_refresh_if_due(&mut self, now: u64)
        requires
            wf(old(self)@),
            now <= u64::MAX - INVENTORY_REFRESH_POLL_INTERVAL_MS,
        ensures
            keeps_runtime(old(self)@, final(self)@),
            final(self)@ == poll_inventory_spec(old(self)@, now),
    {
        proof {
            reveal(poll_inventory_spec);
        }
        if !self.runtime_configured {
            self.next_inventory_refresh_at = None;
            return;
        }
        if let Some(next) = self.next_inventory_refresh_at {
            if now < next {
                return;
            }
        }
        self.next_inventory_refresh_at = Some(now + INVENTORY_REFRESH_POLL_INTERVAL_MS);
        self.refresh_inventory();
    }

    /// Shows a startup probe, counting and logging it.
    pub fn apply_startup_view(&mut self, startup: StartupViewModel)
        ensures
            keeps_runtime(old(self)@, final(self)@),
            final(self)@ == startup_view_spec(old(self)@, startup),
    {
        proof {
            reveal(startup_view_spec);
        }
        let line = self.diagnostics.record_startup_view(&startup);
        self.log_line(line);
        self.startup = startup;
    }
}

} // verus!
