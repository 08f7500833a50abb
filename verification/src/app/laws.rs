//! Properties of the host's state machine that hold across its operations.
use vstd::prelude::*;
use crate::inventory::model::DeviceView;
use crate::preferences::KnownDeviceView;
use crate::runtime::HostRuntimeSnapshot;
use crate::view_models::session::UiStateView;
use super::detail::{inventory_detail_spec, is_transient_spec};
use super::inventory::{carry_spec, inventory_ids, inventory_refresh_spec, poll_inventory_spec, remove_all, stabilize_spec};
use super::navigation::{select_device_spec, sync_spec, try_pending_spec};
use super::refresh::{poll_runtime_spec, refresh_target_spec};
use super::requests::{PurposeView, StartView};
use super::start::{
    counted_failure, finish_start_spec, known_index, remember_spec, request_start_spec,
    start_failed_spec, stop_spec,
};
use super::workspace::{
    reconcile_spec, selected_workspace_spec, status_branch_spec, workspace_branch_spec,
    workspace_detail_spec, workspace_session_spec, wf,
};
use super::{with_log_line, AppView, INVENTORY_MISSED_REFRESH_GRACE, INVENTORY_REFRESH_POLL_INTERVAL_MS};

verus! {

/// No two rows share an inventory id.
pub open spec fn unique_ids(rows: Seq<DeviceView>) -> bool {
    forall|i: int, j: int| 0 <= i < j < rows.len() ==> #[trigger] rows[i].inventory_id != #[trigger] rows[j].inventory_id
}

/// Some row has the inventory id.
pub open spec fn has_id(rows: Seq<DeviceView>, id: Seq<char>) -> bool {
    exists|k: int| 0 <= k < rows.len() && #[trigger] rows[k].inventory_id == id
}

/// How many refreshes a row has been missed, zero when it has no count.
pub open spec fn missed_count(m: Map<Seq<char>, u8>, id: Seq<char>) -> u8 {
    if m.contains_key(id) {
        m[id]
    } else {
        0
    }
}

proof fn lemma_remove_all(m: Map<Seq<char>, u8>, ids: Seq<Seq<char>>, id: Seq<char>)
    ensures
        remove_all(m, ids).contains_key(id) == (m.contains_key(id) && !ids.contains(id)),
        remove_all(m, ids).contains_key(id) ==> remove_all(m, ids)[id] == m[id],
    decreases ids.len(),
{
    if ids.len() > 0 {
        lemma_remove_all(m, ids.drop_last(), id);
        if ids.drop_last().contains(id) {
            let k = choose|k: int| 0 <= k < ids.drop_last().len() && ids.drop_last()[k] == id;
            assert(ids[k] == id);
        }
        if ids.contains(id) && ids.last() != id {
            let k = choose|k: int| 0 <= k < ids.len() && ids[k] == id;
            assert(k < ids.len() - 1);
            assert(ids.drop_last()[k] == id);
        }
        if ids.last() == id {
            assert(ids[ids.len() - 1] == id);
        }
    }
}

proof fn lemma_carry_untouched(prev: Seq<DeviceView>, ids: Seq<Seq<char>>, m: Map<Seq<char>, u8>, id: Seq<char>)
    requires
        forall|k: int| 0 <= k < prev.len() ==> #[trigger] prev[k].inventory_id != id,
    ensures
        carry_spec(prev, ids, m).1.contains_key(id) == m.contains_key(id),
        m.contains_key(id) ==> carry_spec(prev, ids, m).1[id] == m[id],
        forall|k: int| 0 <= k < carry_spec(prev, ids, m).0.len() ==> #[trigger] carry_spec(prev, ids, m).0[k].inventory_id != id,
        !carry_spec(prev, ids, m).2.contains(id),
    decreases prev.len(),
{
    if prev.len() > 0 {
        let p = prev.last();
        assert(p.inventory_id == prev[prev.len() - 1].inventory_id);
        assert forall|k: int| 0 <= k < prev.drop_last().len() implies #[trigger] prev.drop_last()[k].inventory_id != id by {
            assert(prev.drop_last()[k] == prev[k]);
        }
        lemma_carry_untouched(prev.drop_last(), ids, m, id);
        let r = carry_spec(prev.drop_last(), ids, m);
        if !(ids.contains(p.inventory_id) || !is_transient_spec(p)) {
            let count: u8 = if r.1.contains_key(p.inventory_id) { r.1[p.inventory_id] } else { 0u8 };
            if count >= INVENTORY_MISSED_REFRESH_GRACE {
                assert(!r.2.push(p.inventory_id).contains(id)) by {
                    if r.2.push(p.inventory_id).contains(id) {
                        let k = choose|k: int| 0 <= k < r.2.push(p.inventory_id).len() && r.2.push(p.inventory_id)[k] == id;
                        if k < r.2.len() {
                            assert(r.2[k] == id);
                        }
                    }
                }
            } else {
                assert forall|k: int| 0 <= k < r.0.push(p).len() implies #[trigger] r.0.push(p)[k].inventory_id != id by {
                    if k < r.0.len() {
                        assert(r.0.push(p)[k] == r.0[k]);
                    }
                }
            }
        }
    }
}

proof fn lemma_carry_row(prev: Seq<DeviceView>, ids: Seq<Seq<char>>, m: Map<Seq<char>, u8>, i: int)
    requires
        0 <= i < prev.len(),
        unique_ids(prev),
        is_transient_spec(prev[i]),
        !ids.contains(prev[i].inventory_id),
    ensures
        missed_count(m, prev[i].inventory_id) < INVENTORY_MISSED_REFRESH_GRACE ==> {
            &&& carry_spec(prev, ids, m).0.contains(prev[i])
            &&& carry_spec(prev, ids, m).1.contains_key(prev[i].inventory_id)
            &&& carry_spec(prev, ids, m).1[prev[i].inventory_id] == missed_count(m, prev[i].inventory_id) + 1
            &&& !carry_spec(prev, ids, m).2.contains(prev[i].inventory_id)
        },
        missed_count(m, prev[i].inventory_id) >= INVENTORY_MISSED_REFRESH_GRACE ==> {
            &&& forall|k: int| 0 <= k < carry_spec(prev, ids, m).0.len() ==> #[trigger] carry_spec(prev, ids, m).0[k].inventory_id != prev[i].inventory_id
            &&& carry_spec(prev, ids, m).2.contains(prev[i].inventory_id)
        },
    decreases prev.len(),
{
    let id = prev[i].inventory_id;
    let p = prev.last();
    let r = carry_spec(prev.drop_last(), ids, m);
    if i == prev.len() - 1 {
        assert forall|k: int| 0 <= k < prev.drop_last().len() implies #[trigger] prev.drop_last()[k].inventory_id != id by {
            assert(prev.drop_last()[k] == prev[k]);
        }
        lemma_carry_untouched(prev.drop_last(), ids, m, id);
        assert(p == prev[i]);
        let count: u8 = if r.1.contains_key(id) { r.1[id] } else { 0u8 };
        assert(count == missed_count(m, id));
        if count >= INVENTORY_MISSED_REFRESH_GRACE {
            assert(r.2.push(id)[r.2.len() as int] == id);
        } else {
            assert(r.0.push(p)[r.0.len() as int] == p);
            assert(!r.2.contains(id));
        }
    } else {
        assert(prev.drop_last()[i] == prev[i]);
        assert(unique_ids(prev.drop_last())) by {
            assert forall|a: int, b: int| 0 <= a < b < prev.drop_last().len() implies #[trigger] prev.drop_last()[a].inventory_id
                != #[trigger] prev.drop_last()[b].inventory_id by {
                assert(prev.drop_last()[a] == prev[a]);
                assert(prev.drop_last()[b] == prev[b]);
            }
        }
        lemma_carry_row(prev.drop_last(), ids, m, i);
        assert(p.inventory_id != id) by {
            assert(prev[prev.len() - 1].inventory_id != prev[i].inventory_id);
        }
        if !(ids.contains(p.inventory_id) || !is_transient_spec(p)) {
            let count: u8 = if r.1.contains_key(p.inventory_id) { r.1[p.inventory_id] } else { 0u8 };
            if count >= INVENTORY_MISSED_REFRESH_GRACE {
                if missed_count(m, id) < INVENTORY_MISSED_REFRESH_GRACE {
                    assert(!r.2.push(p.inventory_id).contains(id)) by {
                        if r.2.push(p.inventory_id).contains(id) {
                            let k = choose|k: int| 0 <= k < r.2.push(p.inventory_id).len() && r.2.push(p.inventory_id)[k] == id;
                            if k < r.2.len() {
                                assert(r.2[k] == id);
                            }
                        }
                    }
                } else {
                    let k0 = choose|k: int| 0 <= k < r.2.len() && r.2[k] == id;
                    assert(r.2.push(p.inventory_id)[k0] == id);
                }
            } else {
                if missed_count(m, id) < INVENTORY_MISSED_REFRESH_GRACE {
                    let k0 = choose|k: int| 0 <= k < r.0.len() && r.0[k] == prev[i];
                    assert(r.0.push(p)[k0] == prev[i]);
                } else {
                    assert forall|k: int| 0 <= k < r.0.push(p).len() implies #[trigger] r.0.push(p)[k].inventory_id != id by {
                        if k < r.0.len() {
                            assert(r.0.push(p)[k] == r.0[k]);
                        }
                    }
                }
            }
        }
    }
}

/// A live Bluetooth row that a new inventory lacks stays in the inventory,
/// its missed count one higher, while it has been missed fewer than the
/// grace number of times; once it has been missed that often it leaves the
/// inventory and its count is dropped.
pub proof fn law_transient_rows_age_out(prev: Seq<DeviceView>, missed: Map<Seq<char>, u8>, current: Seq<DeviceView>, i: int)
    requires
        0 <= i < prev.len(),
        unique_ids(prev),
        is_transient_spec(prev[i]),
        !has_id(current, prev[i].inventory_id),
    ensures
        missed_count(missed, prev[i].inventory_id) < INVENTORY_MISSED_REFRESH_GRACE ==> {
            &&& stabilize_spec(prev, missed, current).0.contains(prev[i])
            &&& stabilize_spec(prev, missed, current).1.contains_key(prev[i].inventory_id)
            &&& stabilize_spec(prev, missed, current).1[prev[i].inventory_id] == missed_count(missed, prev[i].inventory_id) + 1
        },
        missed_count(missed, prev[i].inventory_id) >= INVENTORY_MISSED_REFRESH_GRACE ==> {
            &&& !has_id(stabilize_spec(prev, missed, current).0, prev[i].inventory_id)
            &&& !stabilize_spec(prev, missed, current).1.contains_key(prev[i].inventory_id)
        },
{
    let id = prev[i].inventory_id;
    let ids = inventory_ids(current);
    assert(!ids.contains(id)) by {
        if ids.contains(id) {
            let k = choose|k: int| 0 <= k < ids.len() && ids[k] == id;
            assert(current[k].inventory_id == id);
        }
    }
    let m0 = remove_all(missed, ids);
    lemma_remove_all(missed, ids, id);
    assert(missed_count(m0, id) == missed_count(missed, id));
    lemma_carry_row(prev, ids, m0, i);
    let r = carry_spec(prev, ids, m0);
    lemma_remove_all(r.1, r.2, id);
    let out = current + r.0;
    if missed_count(missed, id) < INVENTORY_MISSED_REFRESH_GRACE {
        let k0 = choose|k: int| 0 <= k < r.0.len() && r.0[k] == prev[i];
        assert(out[current.len() + k0] == prev[i]);
    } else {
        assert(!has_id(out, id)) by {
            if has_id(out, id) {
                let k = choose|k: int| 0 <= k < out.len() && #[trigger] out[k].inventory_id == id;
                if k < current.len() {
                    assert(out[k] == current[k]);
                } else {
                    assert(out[k] == r.0[k - current.len()]);
                }
            }
        }
    }
}

/// The rows of a new inventory come first, unchanged, and none of them keeps
/// a missed count.
pub proof fn law_new_rows_come_first(prev: Seq<DeviceView>, missed: Map<Seq<char>, u8>, current: Seq<DeviceView>)
    ensures
        stabilize_spec(prev, missed, current).0.subrange(0, current.len() as int) == current,
        forall|k: int| 0 <= k < current.len() ==> !stabilize_spec(prev, missed, current).1.contains_key(
            #[trigger] current[k].inventory_id,
        ),
{
    let ids = inventory_ids(current);
    let r = carry_spec(prev, ids, remove_all(missed, ids));
    assert((current + r.0).subrange(0, current.len() as int) =~= current);
    assert forall|k: int| 0 <= k < current.len() implies !stabilize_spec(prev, missed, current).1.contains_key(
        #[trigger] current[k].inventory_id,
    ) by {
        let id = current[k].inventory_id;
        assert(ids[k] == id);
        lemma_remove_all(missed, ids, id);
        lemma_carry_keeps_listed_absent(prev, ids, remove_all(missed, ids), id);
        lemma_remove_all(r.1, r.2, id);
    }
}

proof fn lemma_carry_keeps_listed_absent(prev: Seq<DeviceView>, ids: Seq<Seq<char>>, m: Map<Seq<char>, u8>, id: Seq<char>)
    requires
        ids.contains(id),
        !m.contains_key(id),
    ensures
        !carry_spec(prev, ids, m).1.contains_key(id),
    decreases prev.len(),
{
    if prev.len() > 0 {
        lemma_carry_keeps_listed_absent(prev.drop_last(), ids, m, id);
    }
}

/// No two known devices share an id.
pub open spec fn unique_known(known: Seq<KnownDeviceView>) -> bool {
    forall|i: int, j: int| 0 <= i < j < known.len() ==> #[trigger] known[i].known_device_id != #[trigger] known[j].known_device_id
}

proof fn lemma_known_index(known: Seq<KnownDeviceView>, id: Seq<char>)
    ensures
        known_index(known, id) matches Some(k) ==> 0 <= k < known.len() && known[k].known_device_id == id,
        known_index(known, id) is None ==> forall|k: int| 0 <= k < known.len() ==> #[trigger] known[k].known_device_id != id,
    decreases known.len(),
{
    if known.len() > 0 {
        lemma_known_index(known.drop_last(), id);
        if known_index(known, id) is None {
            assert forall|k: int| 0 <= k < known.len() implies #[trigger] known[k].known_device_id != id by {
                if k < known.len() - 1 {
                    assert(known[k] == known.drop_last()[k]);
                } else {
                    assert(known[k] == known.last());
                }
            }
        }
    }
}

/// Remembering a session with a device keeps one entry per device: the
/// device's entry then holds the session's name and source.
pub proof fn law_known_devices_stay_unique(
    known: Seq<KnownDeviceView>,
    device: Seq<char>,
    name: Seq<char>,
    source: Option<Seq<char>>,
    stable_id: Option<Seq<char>>,
)
    requires
        unique_known(known),
    ensures
        unique_known(remember_spec(known, device, name, source, stable_id)),
        known_index(remember_spec(known, device, name, source, stable_id), device) matches Some(k) && {
            let r = remember_spec(known, device, name, source, stable_id);
            r[k].display_name == name && r[k].last_source_id == source
        },
{
    let r = remember_spec(known, device, name, source, stable_id);
    lemma_known_index(known, device);
    lemma_known_index(r, device);
    match known_index(known, device) {
        Some(i) => {
            assert(r.len() == known.len());
            assert forall|a: int, b: int| 0 <= a < b < r.len() implies #[trigger] r[a].known_device_id
                != #[trigger] r[b].known_device_id by {
                assert(r[a].known_device_id == known[a].known_device_id);
                assert(r[b].known_device_id == known[b].known_device_id);
            }
            assert(r[i].known_device_id == device);
        },
        None => {
            assert forall|a: int, b: int| 0 <= a < b < r.len() implies #[trigger] r[a].known_device_id
                != #[trigger] r[b].known_device_id by {
                if b < known.len() {
                    assert(r[a] == known[a]);
                    assert(r[b] == known[b]);
                } else {
                    assert(r[a] == known[a]);
                }
            }
            assert(r[known.len() as int].known_device_id == device);
        },
    }
}

/// Without a runtime, a start fails with "Host runtime unavailable" and asks
/// nothing of the runtime.
pub proof fn law_no_runtime_no_start(s: AppView)
    requires
        !s.runtime_available,
    ensures
        request_start_spec(s).session.ui_state == UiStateView::Error("Host runtime unavailable"@),
        request_start_spec(s).requests == s.requests,
        request_start_spec(s).diagnostics.host_error == Some("Host runtime unavailable"@),
{
    reveal(request_start_spec);
    reveal(start_failed_spec);
    reveal(counted_failure);
}

/// A start that already was tried a second time is not tried again: its
/// failure is shown and nothing more is asked of the runtime.
pub proof fn law_second_try_is_the_last(s: AppView, request: StartView, error: Seq<char>)
    requires
        request.purpose matches PurposeView::Selected { retried, .. } && retried,
    ensures
        finish_start_spec(s, request, Err(error)).requests == s.requests,
        finish_start_spec(s, request, Err(error)).session.ui_state == UiStateView::Error(error),
{
    reveal(finish_start_spec);
    reveal(start_failed_spec);
    reveal(counted_failure);
}

proof fn lemma_inventory_detail_keeps(s: AppView, d: DeviceView)
    ensures
        inventory_detail_spec(s, d).selected_device_id == s.selected_device_id,
        inventory_detail_spec(s, d).requests == s.requests,
        inventory_detail_spec(s, d).statuses == s.statuses,
        inventory_detail_spec(s, d).workspace == s.workspace,
        inventory_detail_spec(s, d).window_open == s.window_open,
        inventory_detail_spec(s, d).bridge == s.bridge,
        inventory_detail_spec(s, d).restored == s.restored,
        inventory_detail_spec(s, d).manual_source_device == s.manual_source_device,
        inventory_detail_spec(s, d).next_runtime_refresh_at == s.next_runtime_refresh_at,
        inventory_detail_spec(s, d).runtime_refresh_device == s.runtime_refresh_device,
        inventory_detail_spec(s, d).pending_start_device == s.pending_start_device,
{
    reveal(inventory_detail_spec);
}

proof fn lemma_workspace_keeps_selection(s: AppView)
    ensures
        selected_workspace_spec(s).selected_device_id == s.selected_device_id,
        selected_workspace_spec(s).requests == s.requests,
        selected_workspace_spec(s).statuses == s.statuses,
        selected_workspace_spec(s).workspace == s.workspace,
        selected_workspace_spec(s).pending_start_device == s.pending_start_device,
        selected_workspace_spec(s).next_runtime_refresh_at == s.next_runtime_refresh_at,
{
    reveal(selected_workspace_spec);
    reveal(reconcile_spec);
    reveal(workspace_branch_spec);
    reveal(workspace_detail_spec);
    reveal(workspace_session_spec);
    reveal(status_branch_spec);
    match s.selected_device_id {
        Some(sel) => {
            if !(s.workspace is Some && s.workspace->0.device_id@ == sel
                && crate::view_models::fleet::status_index(s.statuses, sel) is Some)
                && crate::view_models::fleet::status_index(s.statuses, sel) is None {
                match super::workspace::device_index(s.inventory, sel) {
                    Some(k) => lemma_inventory_detail_keeps(s, s.inventory[k]),
                    None => {},
                }
            }
        },
        None => {},
    }
}

/// Selecting a device selects it, whatever the panes then show, and asks
/// nothing of the runtime.
pub proof fn law_select_device_selects(s: AppView, device: Seq<char>)
    ensures
        select_device_spec(s, device).selected_device_id == Some(device),
        select_device_spec(s, device).requests == s.requests,
        select_device_spec(s, device).next_runtime_refresh_at is None,
{
    reveal(select_device_spec);
    let s1 = if s.selected_device_id != Some(device) {
        AppView {
            selected_device_id: Some(device),
            preferences: crate::preferences::PreferencesView {
                selected_device_id: Some(device),
                selected_source_id: None,
                ..s.preferences
            },
            restored: super::start::cleared(s.restored, device),
            manual_source_device: None,
            preferences_changed: true,
            ..s
        }
    } else {
        AppView { selected_device_id: Some(device), ..s }
    };
    lemma_workspace_keeps_selection(AppView { next_runtime_refresh_at: None, runtime_refresh_device: None, ..s1 });
}

proof fn lemma_quiet_workspace(s: AppView)
    requires
        s.statuses.len() == 0,
        s.workspace is None,
        !s.window_deferred,
    ensures
        selected_workspace_spec(s).window_open == s.window_open,
        selected_workspace_spec(s).window_deferred == s.window_deferred,
        selected_workspace_spec(s).bridge == s.bridge,
        selected_workspace_spec(s).restored == s.restored,
        selected_workspace_spec(s).next_runtime_refresh_at == s.next_runtime_refresh_at,
        selected_workspace_spec(s).requests == s.requests,
        selected_workspace_spec(s).statuses == s.statuses,
        selected_workspace_spec(s).workspace == s.workspace,
        selected_workspace_spec(s).pending_start_device == s.pending_start_device,
        selected_workspace_spec(s).plugin_rows == s.plugin_rows,
{
    reveal(selected_workspace_spec);
    reveal(reconcile_spec);
    match s.selected_device_id {
        Some(sel) => {
            assert(crate::view_models::fleet::status_index(s.statuses, sel) is None);
            match super::workspace::device_index(s.inventory, sel) {
                Some(k) => {
                    lemma_inventory_detail_keeps(s, s.inventory[k]);
                    reveal(inventory_detail_spec);
                },
                None => {},
            }
        },
        None => {},
    }
}

/// Stopping the session drops it: no statuses, no workspace, no plugin
/// lines, no session refresh timer, no armed preview input, no restored source, and a closed
/// session window (when no start waits for its device); the runtime is asked
/// to stop the selected device's session when there is a runtime.
pub proof fn law_stop_drops_the_session(s: AppView)
    requires
        s.pending_start_device is None,
    ensures
        stop_spec(s).statuses.len() == 0,
        stop_spec(s).workspace is None,
        !stop_spec(s).window_open,
        !stop_spec(s).bridge.armed,
        stop_spec(s).next_runtime_refresh_at is None,
        stop_spec(s).restored is None,
        stop_spec(s).plugin_rows.len() == 0,
        stop_spec(s).requests == if s.runtime_available && s.selected_device_id is Some {
            s.requests.push(super::requests::RequestView::Stop(s.selected_device_id->0))
        } else {
            s.requests
        },
{
    reveal(stop_spec);
    reveal(sync_spec);
    reveal(try_pending_spec);
    reveal(reconcile_spec);
    let s1 = if s.runtime_available && s.selected_device_id is Some {
        super::requests::with_request(s, super::requests::RequestView::Stop(s.selected_device_id->0))
    } else {
        s
    };
    let x = AppView {
        statuses: seq![],
        workspace: None,
        next_inventory_refresh_at: None,
        next_runtime_refresh_at: None,
        runtime_refresh_device: None,
        bridge: crate::preview::BridgeView { armed: false, buttons: 0, device_pointer: None, ..s1.bridge },
        restored: None,
        manual_source_device: None,
        window_open: false,
        window_deferred: false,
        window_focus: false,
        window_device: None,
        window_auto_sized: None,
        session: crate::view_models::session::idle_view(),
        diagnostics: crate::view_models::diagnostics::DiagnosticsView {
            host_error: None,
            control_summary: "control not started"@,
            grounding_summary: "grounding idle"@,
            ..s1.diagnostics
        },
        ..s1
    };
    let rows = super::navigation::fleet_rows_spec(x);
    let ids = super::navigation::row_ids(rows);
    let x1 = AppView {
        fleet: rows,
        available_device_ids: ids,
        dashboard: crate::view_models::dashboard::DashboardViewModel {
            total_devices: rows.len() as usize,
            degraded_devices: super::navigation::degraded_rows(rows) as usize,
        },
        selected_device_id: super::navigation::fixed_selection(x, ids),
        plugin_rows: crate::view_models::settings::plugin_rows_spec(x.statuses),
        ..x
    };
    assert(x1.plugin_rows =~= seq![]);
    lemma_quiet_workspace(x1);
}

/// Session refreshes are throttled: after a poll of the refresh timer at
/// `now`, the timer is set to a time after `now`, and a poll at any time from
/// `now` until then changes nothing and asks nothing of the runtime.
pub proof fn law_runtime_refresh_is_throttled(s: AppView, now: u64)
    requires
        refresh_target_spec(s) matches Some((_, interval)) && now + interval <= u64::MAX,
    ensures
        poll_runtime_spec(s, now).next_runtime_refresh_at matches Some(next) && now < next,
        forall|later: u64|
            now <= later && (poll_runtime_spec(s, now).next_runtime_refresh_at matches Some(next)
                && later < next) ==> #[trigger] poll_runtime_spec(poll_runtime_spec(s, now), later)
                == poll_runtime_spec(s, now),
{
    reveal(poll_runtime_spec);
    let s1 = poll_runtime_spec(s, now);
    assert(refresh_target_spec(s1) == refresh_target_spec(s));
}

/// Inventory refreshes are throttled the same way: with plugin paths, a poll
/// at `now` leaves the timer set after `now`, and polls from `now` until then
/// change nothing.
pub proof fn law_inventory_refresh_is_throttled(s: AppView, now: u64)
    requires
        s.runtime_configured,
        now + INVENTORY_REFRESH_POLL_INTERVAL_MS <= u64::MAX,
    ensures
        poll_inventory_spec(s, now).next_inventory_refresh_at matches Some(next) && now < next,
        forall|later: u64|
            now <= later && (poll_inventory_spec(s, now).next_inventory_refresh_at matches Some(next)
                && later < next) ==> #[trigger] poll_inventory_spec(poll_inventory_spec(s, now), later)
                == poll_inventory_spec(s, now),
{
    reveal(poll_inventory_spec);
    reveal(inventory_refresh_spec);
}

} // verus!
