//! Keeping the panes in step with the inventory and the runtime, selecting
//! devices, and opening a device's session window.
use vstd::prelude::*;
use crate::ordered::texts;
use crate::preferences::PreferencesView;
use crate::view_models::dashboard::DashboardViewModel;
use crate::view_models::fleet::{
    add_session_rows, find_status, inventory_row_spec, launcher_rows_spec, row_views, status_index,
    FleetRow, FleetRowView, FleetViewModel,
};
use crate::view_models::session::{error_view, SessionViewModel};
use super::detail::inventory_detail_spec;
use super::start::{
    can_start_direct_spec, cleared, direct_for_device_spec, direct_receiver_spec,
    start_device_spec,
};
use super::workspace::{
    device_index, find_device, lemma_status_index_bound, reconcile_spec, selected_workspace_spec, wf,
};
use super::{keeps_runtime, AppView, HostDesktopApp};

use crate::view_models::settings::{plugin_rows_spec, SettingsViewModel};

verus! {

/// The device list: one row per inventory row, then one per session whose
/// device has no row.
pub open spec fn fleet_rows_spec(s: AppView) -> Seq<FleetRowView> {
    add_session_rows(
        s.inventory.map_values(|d: crate::inventory::model::DeviceView| inventory_row_spec(d, s.statuses)),
        s.statuses,
    )
}

/// The device ids of rows.
pub open spec fn row_ids(rows: Seq<FleetRowView>) -> Seq<Seq<char>> {
    rows.map_values(|r: FleetRowView| r.device_id)
}

/// A row needs the operator: it has an operator task or cannot start.
pub open spec fn is_degraded_row(r: FleetRowView) -> bool {
    r.operator_action is Some || r.readiness_summary == "Not startable"@
}

/// How many rows need the operator.
pub open spec fn degraded_rows(rows: Seq<FleetRowView>) -> nat
    decreases rows.len(),
{
    if rows.len() == 0 {
        0
    } else {
        degraded_rows(rows.drop_last()) + if is_degraded_row(rows.last()) { 1nat } else { 0nat }
    }
}

/// The first of the ids, if any.
pub open spec fn first_id(ids: Seq<Seq<char>>) -> Option<Seq<char>> {
    if ids.len() > 0 {
        Some(ids[0])
    } else {
        None
    }
}

/// The selection kept while the device is listed or has a session, else the
/// first listed device.
pub open spec fn fixed_selection(s: AppView, ids: Seq<Seq<char>>) -> Option<Seq<char>> {
    match s.selected_device_id {
        None => first_id(ids),
        Some(sel) => if !ids.contains(sel) && status_index(s.statuses, sel) is None {
            first_id(ids)
        } else {
            Some(sel)
        },
    }
}

/// The panes after the inventory or the runtime's statuses changed: the
/// device list, dashboard and plugin lines are rebuilt, the selection fixed, the selected
/// device shown, and a start that waits for its device tried.
#[verifier::opaque]
pub open spec fn sync_spec(s: AppView) -> AppView {
    let rows = fleet_rows_spec(s);
    let ids = row_ids(rows);
    let s1 = AppView {
        fleet: rows,
        available_device_ids: ids,
        dashboard: DashboardViewModel {
            total_devices: rows.len() as usize,
            degraded_devices: degraded_rows(rows) as usize,
        },
        selected_device_id: fixed_selection(s, ids),
        plugin_rows: plugin_rows_spec(s.statuses),
        ..s
    };
    try_pending_spec(reconcile_spec(selected_workspace_spec(s1)))
}

/// Index of the first row with the given device id.
pub open spec fn row_index(rows: Seq<FleetRowView>, id: Seq<char>) -> Option<int>
    decreases rows.len(),
{
    if rows.len() == 0 {
        None
    } else {
        match row_index(rows.drop_last(), id) {
            Some(i) => Some(i),
            None => if rows.last().device_id == id {
                Some(rows.len() - 1)
            } else {
                None
            },
        }
    }
}

/// The launcher offers to start the device.
pub open spec fn launcher_startable(s: AppView, id: Seq<char>) -> bool {
    let rows = launcher_rows_spec(s.inventory, s.startup.direct_receiver.available, s.statuses);
    match row_index(rows, id) {
        Some(k) => rows[k].start_enabled,
        None => false,
    }
}

/// Selecting a device: a new selection is saved (with no source), drops the
/// device's restored and hand-picked source, and stops the session refresh
/// timer; the panes then show the device.
#[verifier::opaque]
pub open spec fn select_device_spec(s: AppView, dev: Seq<char>) -> AppView {
    let changed = s.selected_device_id != Some(dev);
    let s1 = if changed {
        AppView {
            selected_device_id: Some(dev),
            preferences: PreferencesView {
                selected_device_id: Some(dev),
                selected_source_id: None,
                ..s.preferences
            },
            restored: cleared(s.restored, dev),
            manual_source_device: None,
            preferences_changed: true,
            ..s
        }
    } else {
        AppView { selected_device_id: Some(dev), ..s }
    };
    selected_workspace_spec(
        AppView { next_runtime_refresh_at: None, runtime_refresh_device: None, ..s1 },
    )
}

/// The session window shown with focus, to be sized anew.
pub open spec fn window_shown(s: AppView) -> AppView {
    AppView {
        window_open: true,
        window_deferred: false,
        window_focus: true,
        window_auto_sized: None,
        ..s
    }
}

/// Opening the session window of the selected (or first listed) device: a
/// startable device starts on the direct receiver; otherwise the window shows
/// the device's inventory row; with no device it shows that none is selected.
#[verifier::opaque]
pub open spec fn request_open_spec(s: AppView) -> AppView {
    match start_device_spec(s) {
        None => window_shown(AppView { session: error_view("No device selected"@), window_device: None, ..s }),
        Some(dev) => {
            let s1 = window_shown(AppView { window_device: Some(dev), ..s });
            if launcher_startable(s, dev) {
                reconcile_spec(direct_for_device_spec(s1, dev))
            } else {
                match device_index(s.inventory, dev) {
                    Some(k) => inventory_detail_spec(s1, s.inventory[k]),
                    None => s1,
                }
            }
        },
    }
}

/// A start that waits for its device: dropped once the device has a session;
/// the direct receiver starts (in a shown window) once it can; another device
/// is selected and opened once the launcher offers to start it.
#[verifier::opaque]
pub open spec fn try_pending_spec(s: AppView) -> AppView {
    match s.pending_start_device {
        None => s,
        Some(dev) => if status_index(s.statuses, dev) is Some {
            AppView { pending_start_device: None, ..s }
        } else if dev == "direct-receiver"@ {
            if can_start_direct_spec(s) {
                direct_receiver_spec(window_shown(AppView { pending_start_device: None, ..s }))
            } else {
                s
            }
        } else if launcher_startable(s, dev) {
            request_open_spec(select_device_spec(AppView { pending_start_device: None, ..s }, dev))
        } else {
            s
        },
    }
}

proof fn lemma_row_index_prefix(rows: Seq<FleetRowView>, id: Seq<char>, k: int)
    requires
        0 <= k <= rows.len(),
        row_index(rows.subrange(0, k), id) is Some,
    ensures
        row_index(rows, id) == row_index(rows.subrange(0, k), id),
    decreases rows.len() - k,
{
    if k < rows.len() {
        assert(rows.subrange(0, k + 1).drop_last() =~= rows.subrange(0, k));
        lemma_row_index_prefix(rows, id, k + 1);
    } else {
        assert(rows.subrange(0, k) =~= rows);
    }
}

proof fn lemma_row_index_bound(rows: Seq<FleetRowView>, id: Seq<char>)
    ensures
        row_index(rows, id) matches Some(k) ==> 0 <= k < rows.len(),
    decreases rows.len(),
{
    if rows.len() > 0 {
        lemma_row_index_bound(rows.drop_last(), id);
    }
}

/// Whether the first row with the id offers to start it.
fn row_start_enabled(rows: &Vec<FleetRow>, id: &str) -> (r: bool)
    ensures
        r == (match row_index(row_views(rows@), id@) {
            Some(k) => row_views(rows@)[k].start_enabled,
            None => false,
        }),
{
    let ghost views = row_views(rows@);
    let n = rows.len();
    let mut i: usize = 0;
    while i < n
        invariant
            n == rows@.len(),
            views == row_views(rows@),
            i <= n,
            row_index(views.subrange(0, i as int), id@) is None,
        decreases n - i,
    {
        assert(views.subrange(0, i + 1).drop_last() =~= views.subrange(0, i as int));
        if crate::text::same_text(rows[i].device_id.as_str(), id) {
            proof {
                assert(views.subrange(0, i + 1).last() == views[i as int]);
                lemma_row_index_prefix(views, id@, i + 1);
            }
            return rows[i].start_enabled;
        }
        i = i + 1;
    }
    assert(views.subrange(0, n as int) =~= views);
    false
}

fn row_device_ids(rows: &Vec<FleetRow>) -> (r: Vec<String>)
    ensures
        texts(r@) == row_ids(row_views(rows@)),
{
    let mut r: Vec<String> = Vec::new();
    let n = rows.len();
    let mut i: usize = 0;
    while i < n
        invariant
            n == rows@.len(),
            i <= n,
            texts(r@) == row_ids(row_views(rows@.subrange(0, i as int))),
        decreases n - i,
    {
        let ghost before = r@;
        r.push(rows[i].device_id.clone());
        proof {
            assert(texts(r@) =~= texts(before).push(rows@[i as int].device_id@));
            assert(row_ids(row_views(rows@.subrange(0, i + 1))) =~= row_ids(
                row_views(rows@.subrange(0, i as int)),
            ).push(rows@[i as int].device_id@));
        }
        i = i + 1;
    }
    assert(rows@.subrange(0, n as int) =~= rows@);
    r
}

proof fn lemma_degraded_bound(rows: Seq<FleetRowView>)
    ensures
        degraded_rows(rows) <= rows.len(),
    decreases rows.len(),
{
    if rows.len() > 0 {
        lemma_degraded_bound(rows.drop_last());
    }
}

fn degraded_row_count(rows: &Vec<FleetRow>) -> (r: usize)
    ensures
        r == degraded_rows(row_views(rows@)),
{
    let ghost views = row_views(rows@);
    let n = rows.len();
    let mut count: usize = 0;
    let mut i: usize = 0;
    while i < n
        invariant
            n == rows@.len(),
            views == row_views(rows@),
            i <= n,
            count == degraded_rows(views.subrange(0, i as int)),
        decreases n - i,
    {
        assert(views.subrange(0, i + 1).drop_last() =~= views.subrange(0, i as int));
        proof {
            lemma_degraded_bound(views.subrange(0, i as int));
        }
        let degraded = rows[i].operator_action.is_some() || crate::text::same_text(
            rows[i].readiness_summary.as_str(),
            "Not startable",
        );
        if degraded {
            count = count + 1;
        }
        i = i + 1;
    }
    assert(views.subrange(0, n as int) =~= views);
    count
}

pub fn contains_id(ids: &Vec<String>, id: &str) -> (r: bool)
    ensures
        r == texts(ids@).contains(id@),
{
    let n = ids.len();
    let mut i: usize = 0;
    while i < n
        invariant
            n == ids@.len(),
            i <= n,
            forall|k: int| 0 <= k < i ==> texts(ids@)[k] != id@,
        decreases n - i,
    {
        if crate::text::same_text(ids[i].as_str(), id) {
            assert(texts(ids@)[i as int] == id@);
            return true;
        }
        i = i + 1;
    }
    false
}

impl HostDesktopApp {
    /// Rebuilds the device list and dashboard, fixes the selection, shows the
    /// selected device, and tries a start that waits for its device.
    #[verifier::rlimit(100)]
    pub fn sync_from_inventory_and_runtime(&mut self)
        requires
            wf(old(self)@),
        ensures
            keeps_runtime(old(self)@, final(self)@),
            final(self)@ == sync_spec(old(self)@),
    {
        proof {
            reveal(sync_spec);
        }
        let ghost s = self@;
        self.fleet = FleetViewModel::from_inventory(
            self.inventory_snapshot.devices.as_slice(),
            self.runtime_statuses.as_slice(),
        );
        proof {
            assert(row_views(self.fleet.rows@) == fleet_rows_spec(s));
        }
        self.available_device_ids = row_device_ids(&self.fleet.rows);
        let degraded = degraded_row_count(&self.fleet.rows);
        self.dashboard = DashboardViewModel::from_inventory_rows(self.fleet.rows.len(), degraded);
        self.settings.plugin_rows = SettingsViewModel::plugin_rows_for(self.runtime_statuses.as_slice());
        let keep = match &self.selected_device_id {
            None => false,
            Some(selected) => contains_id(&self.available_device_ids, selected.as_str()) || find_status(
                self.runtime_statuses.as_slice(),
                selected.as_str(),
            ).is_some(),
        };
        if !keep {
            self.selected_device_id = if self.available_device_ids.len() > 0 {
                Some(self.available_device_ids[0].clone())
            } else {
                None
            };
        }
        self.sync_selected_workspace();
        self.reconcile_session_window_state();
        self.try_start_pending_device();
    }

    /// Selects a device and shows it in the panes.
    #[verifier::rlimit(100)]
    pub fn select_device(&mut self, device_id: &str)
        requires
            wf(old(self)@),
        ensures
            keeps_runtime(old(self)@, final(self)@),
            final(self)@ == select_device_spec(old(self)@, device_id@),
    {
        proof {
            reveal(select_device_spec);
        }
        let changed = match &self.selected_device_id {
            Some(selected) => !crate::text::same_text(selected.as_str(), device_id),
            None => true,
        };
        self.selected_device_id = Some(crate::text::owned(device_id));
        if changed {
            self.preferences.selected_device_id = Some(crate::text::owned(device_id));
            self.preferences.selected_source_id = None;
            self.clear_restored_source_preference_for_device(device_id);
            self.manual_source_selection_device_id = None;
            self.preferences_changed = true;
        }
        self.next_runtime_refresh_at = None;
        self.runtime_refresh_device_id = None;
        self.sync_selected_workspace();
    }

    fn show_session_window(&mut self)
        ensures
            keeps_runtime(old(self)@, final(self)@),
            final(self)@ == window_shown(old(self)@),
    {
        self.session_window_open = true;
        self.session_window_deferred_until_streaming = false;
        self.session_window_focus_requested = true;
        self.session_window_auto_sized_frame = None;
    }

    fn launcher_offers_start(&self, device_id: &str) -> (r: bool)
        ensures
            r == launcher_startable(self@, device_id@),
    {
        let launcher = FleetViewModel::for_launcher(
            self.inventory_snapshot.devices.as_slice(),
            self.startup.direct_receiver.available,
            self.runtime_statuses.as_slice(),
        );
        row_start_enabled(&launcher.rows, device_id)
    }

    /// Opens the session window of the selected (or first listed) device:
    /// a startable device starts on the direct receiver; otherwise the window
    /// shows the device's inventory row.
    pub fn request_open_selected_device_session(&mut self)
        ensures
            keeps_runtime(old(self)@, final(self)@),
            final(self)@ == request_open_spec(old(self)@),
    {
        proof {
            reveal(request_open_spec);
        }
        let device_id = match self.start_device() {
            Some(d) => d,
            None => {
                self.session = SessionViewModel::error("No device selected");
                self.session_window_device_id = None;
                self.show_session_window();
                return;
            },
        };
        let ghost s = self@;
        let startable = self.launcher_offers_start(device_id.as_str());
        let found = find_device(&self.inventory_snapshot.devices, device_id.as_str());
        self.session_window_device_id = Some(device_id.clone());
        self.show_session_window();
        if startable {
            self.request_start_direct_session_for_device(device_id.as_str());
            self.reconcile_session_window_state();
            return;
        }
        match found {
            Some(k) => {
                let device = self.inventory_snapshot.devices[k].clone();
                self.apply_inventory_detail(&device);
            },
            None => {},
        }
    }

    /// Asks for a session start of the device as soon as it can start.
    pub fn set_pending_start_device(&mut self, device_id: &str)
        requires
            wf(old(self)@),
        ensures
            keeps_runtime(old(self)@, final(self)@),
            final(self)@ == try_pending_spec(AppView { pending_start_device: Some(device_id@), ..old(self)@ }),
    {
        self.pending_start_device_id = Some(crate::text::owned(device_id));
        self.try_start_pending_device();
    }

    /// Tries a start that waits for its device.
    #[verifier::rlimit(100)]
    pub fn try_start_pending_device(&mut self)
        requires
            wf(old(self)@),
        ensures
            keeps_runtime(old(self)@, final(self)@),
            final(self)@ == try_pending_spec(old(self)@),
    {
        proof {
            reveal(try_pending_spec);
        }
        let device_id = match &self.pending_start_device_id {
            Some(d) => d.clone(),
            None => return,
        };
        if find_status(self.runtime_statuses.as_slice(), device_id.as_str()).is_some() {
            self.pending_start_device_id = None;
            return;
        }
        if crate::text::same_text(device_id.as_str(), "direct-receiver") {
            if self.can_start_direct_receiver() {
                self.pending_start_device_id = None;
                self.show_session_window();
                self.request_start_direct_receiver();
            }
            return;
        }
        if self.launcher_offers_start(device_id.as_str()) {
            self.pending_start_device_id = None;
            self.select_device(device_id.as_str());
            self.request_open_selected_device_session();
        }
    }
}

} // verus!
