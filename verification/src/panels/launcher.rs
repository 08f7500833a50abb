//! The device launcher: what the operator did, and which row carries the
//! session menu.
use vstd::prelude::*;
use crate::view_models::fleet::{row_views, FleetRow, FleetRowView};

verus! {

/// What the operator did in the launcher.
#[derive(Debug, PartialEq, Eq)]
pub enum LauncherAction {
    NoAction,
    SelectDevice(String),
    OpenDevice(String),
}

/// Some row has the device id.
pub open spec fn lists(rows: Seq<FleetRowView>, id: Seq<char>) -> bool {
    exists|i: int| 0 <= i < rows.len() && #[trigger] rows[i].device_id == id
}

/// The row that carries the session menu: none without rows; the session's
/// own device when it is listed; else the selected device when it is listed;
/// else the first row.
pub open spec fn menu_row_spec(rows: Seq<FleetRowView>, selected: Option<Seq<char>>, session_menu: Option<Seq<char>>) -> Option<Seq<char>> {
    if rows.len() == 0 {
        None
    } else if session_menu is Some && lists(rows, session_menu->0) {
        session_menu
    } else if selected is Some && lists(rows, selected->0) {
        selected
    } else {
        Some(rows[0].device_id)
    }
}

fn listed(rows: &Vec<FleetRow>, id: &str) -> (r: bool)
    ensures
        r == lists(row_views(rows@), id@),
{
    let n = rows.len();
    let mut i: usize = 0;
    while i < n
        invariant
            n == rows@.len(),
            i <= n,
            forall|k: int| 0 <= k < i ==> row_views(rows@)[k].device_id != id@,
        decreases n - i,
    {
        if crate::text::same_text(rows[i].device_id.as_str(), id) {
            assert(row_views(rows@)[i as int].device_id == id@);
            return true;
        }
        i = i + 1;
    }
    false
}

/// The device whose row carries the session menu.
pub fn session_menu_row(rows: &Vec<FleetRow>, selected: Option<&str>, session_menu: Option<&str>) -> (r: Option<String>)
    ensures
        crate::inventory::model::opt_view(r) == menu_row_spec(
            row_views(rows@),
            crate::preferences::str_opt_view(selected),
            crate::preferences::str_opt_view(session_menu),
        ),
{
    if rows.len() == 0 {
        return None;
    }
    if let Some(id) = session_menu {
        if listed(rows, id) {
            return Some(crate::text::owned(id));
        }
    }
    if let Some(id) = selected {
        if listed(rows, id) {
            return Some(crate::text::owned(id));
        }
    }
    Some(rows[0].device_id.clone())
}

} // verus!
