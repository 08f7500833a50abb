//! The settings pane's rows.
use vstd::prelude::*;
use crate::ordered::texts;
use crate::preferences::{log_dir_of, HostPreferencesStore};
use crate::protocol::DeviceSessionStatus;

verus! {

/// Where the preferences and logs are kept, and the plugins that the running
/// sessions use, as lines of text.
#[derive(Debug, PartialEq, Eq)]
pub struct SettingsViewModel {
    pub rows: Vec<String>,
    pub plugin_rows: Vec<String>,
}

/// A session's plugin line: its device, then its capture and control backends.
pub open spec fn plugin_row_spec(status: DeviceSessionStatus) -> Seq<char> {
    status.summary.device_id@ + ": "@ + status.backends.capture_backend@ + " / "@
        + status.backends.control_backend@
}

/// One plugin line per session, in order.
pub open spec fn plugin_rows_spec(statuses: Seq<DeviceSessionStatus>) -> Seq<Seq<char>> {
    statuses.map_values(|s: DeviceSessionStatus| plugin_row_spec(s))
}

impl SettingsViewModel {
    /// No rows.
    pub fn empty() -> (r: Self)
        ensures
            r.rows@.len() == 0,
            r.plugin_rows@.len() == 0,
    {
        SettingsViewModel { rows: Vec::new(), plugin_rows: Vec::new() }
    }

    /// The preferences file and the log directory beside it; no rows without a
    /// preferences file. No plugin lines.
    pub fn from_preferences_path(path: Option<&str>) -> (r: Self)
        ensures
            path is None ==> r.rows@.len() == 0,
            path is Some ==> {
                &&& r.rows@.len() == 2
                &&& r.rows@[0]@ == "Preferences: "@ + path->0@
                &&& exists|dir: Seq<char>|
                    #[trigger] log_dir_of(path->0@, dir) && r.rows@[1]@ == "Logs: "@ + dir
            },
            r.plugin_rows@.len() == 0,
    {
        let path = match path {
            Some(path) => path,
            None => return Self::empty(),
        };
        let log_dir = HostPreferencesStore::log_dir_for_preferences_path(path);
        let mut rows: Vec<String> = Vec::new();
        rows.push(crate::text::joined("Preferences: ", path));
        rows.push(crate::text::joined("Logs: ", log_dir.as_str()));
        assert(log_dir_of(path@, log_dir@));
        SettingsViewModel { rows, plugin_rows: Vec::new() }
    }

    /// The plugin lines of the sessions.
    pub fn plugin_rows_for(statuses: &[DeviceSessionStatus]) -> (r: Vec<String>)
        ensures
            texts(r@) == plugin_rows_spec(statuses@),
    {
        let n = statuses.len();
        let mut r: Vec<String> = Vec::new();
        let mut i: usize = 0;
        while i < n
            invariant
                n == statuses@.len(),
                i <= n,
                texts(r@) == plugin_rows_spec(statuses@).subrange(0, i as int),
            decreases n - i,
        {
            let st = &statuses[i];
            let mut line = crate::text::joined(st.summary.device_id.as_str(), ": ");
            line.append(st.backends.capture_backend.as_str());
            line.append(" / ");
            line.append(st.backends.control_backend.as_str());
            let ghost before = r@;
            r.push(line);
            proof {
                assert(texts(r@) =~= texts(before).push(line@));
                assert(plugin_rows_spec(statuses@).subrange(0, i + 1) =~= plugin_rows_spec(statuses@).subrange(
                    0,
                    i as int,
                ).push(plugin_row_spec(statuses@[i as int])));
            }
            i = i + 1;
        }
        assert(plugin_rows_spec(statuses@).subrange(0, n as int) =~= plugin_rows_spec(statuses@));
        r
    }
}

} // verus!
