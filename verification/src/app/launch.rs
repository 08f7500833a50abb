//! Starting the host with its runtime, and with the operator's saved
//! preferences.
use vstd::prelude::*;
use crate::inventory::model::{device_views, DeviceView, InventorySnapshot};
use crate::ordered::texts;
use crate::preferences::{log_dir_of, HostPreferences, PreferencesView};
use crate::preview::{clamp_units, BridgeView};
use crate::view_models::diagnostics::{keep_last, DiagnosticsView};
use crate::view_models::settings::SettingsViewModel;
use crate::view_models::startup::StartupViewModel;
use super::inventory::{apply_inventory_spec, startup_view_spec};
use super::workspace::{selected_workspace_spec, wf};
use super::{keeps_runtime, initial_state, AppView, HostDesktopApp, RestoredSourcePreference};

verus! {

#[verifier::opaque]
/// A host with a runtime, just started: the startup probe shown and counted,
/// and the first inventory taken in.
pub open spec fn with_runtime_spec(startup: StartupViewModel, inventory: Seq<DeviceView>, env_units: Option<u32>) -> AppView {
    apply_inventory_spec(
        startup_view_spec(
            AppView { runtime_available: true, runtime_configured: true, ..initial_state(startup, env_units) },
            startup,
        ),
        inventory,
    )
}

/// The settings rows of a preferences file: the file, and the log directory
/// beside it.
pub open spec fn settings_rows_for(path: Seq<char>, rows: Seq<Seq<char>>) -> bool {
    &&& rows.len() == 2
    &&& rows[0] == "Preferences: "@ + path
    &&& exists|dir: Seq<char>| #[trigger] log_dir_of(path, dir) && rows[1] == "Logs: "@ + dir
}

/// The source choice restored from saved preferences: the saved device and
/// source, when both are saved.
pub open spec fn restored_from(p: PreferencesView) -> Option<(Seq<char>, Seq<char>)> {
    match (p.selected_device_id, p.selected_source_id) {
        (Some(d), Some(s)) => Some((d, s)),
        _ => None,
    }
}

#[verifier::opaque]
/// The saved preferences taken in: the saved selection, the restored source,
/// and the pointer scale; the direct preview settings are handed to the
/// runtime.
pub open spec fn preferences_taken_spec(s: AppView, preferences: PreferencesView) -> AppView {
    AppView {
        selected_device_id: preferences.selected_device_id,
        preferences,
        bridge: BridgeView {
            pointer_long_axis_units: clamp_units(preferences.ble_pointer_long_axis_units),
            device_pointer: None,
            ..s.bridge
        },
        preview_config_changed: true,
        restored: restored_from(preferences),
        ..s
    }
}

#[verifier::opaque]
/// The host log opened, so that its earlier lines are written to it; or its
/// failure logged.
pub open spec fn log_opened_spec(s: AppView, log_writer: Result<(), Seq<char>>) -> AppView {
    match log_writer {
        Ok(_) => AppView { log_writer_open: true, pending_log: s.pending_log + s.diagnostics.log_lines, ..s },
        Err(e) => AppView {
            diagnostics: DiagnosticsView {
                log_lines: keep_last(s.diagnostics.log_lines.push("host log file unavailable: "@ + e)),
                ..s.diagnostics
            },
            ..s
        },
    }
}

/// A host started with saved preferences, after the runtime start: the
/// preferences are taken in, the host log opens (or its failure is logged),
/// the settings show the files, a new inventory is taken in, and a saved
/// selection is shown.
pub open spec fn launch_with_preferences_spec(
    s: AppView,
    preferences: PreferencesView,
    log_writer: Result<(), Seq<char>>,
    settings: Seq<Seq<char>>,
    inventory: Seq<DeviceView>,
) -> AppView {
    let s2 = log_opened_spec(preferences_taken_spec(s, preferences), log_writer);
    let s3 = apply_inventory_spec(AppView { settings, ..s2 }, inventory);
    if preferences.selected_device_id is Some {
        selected_workspace_spec(AppView { selected_device_id: preferences.selected_device_id, ..s3 })
    } else {
        s3
    }
}

/// The view of a result whose error is text.
pub open spec fn unit_result_view(r: Result<(), String>) -> Result<(), Seq<char>> {
    match r {
        Ok(u) => Ok(u),
        Err(e) => Err(e@),
    }
}

impl HostDesktopApp {
    /// A host with its runtime: `startup` is the probe of its plugins,
    /// `inventory` the first inventory collected, `env_pointer_long_axis_units`
    /// the pointer scale that the environment sets, if any.
    pub fn with_runtime(
        startup: StartupViewModel,
        inventory: InventorySnapshot,
        env_pointer_long_axis_units: Option<u32>,
    ) -> (r: Self)
        ensures
            r@ == with_runtime_spec(startup, device_views(inventory.devices@), env_pointer_long_axis_units),
            wf(r@),
    {
        proof {
            reveal(with_runtime_spec);
        }
        let mut app = Self::initial(env_pointer_long_axis_units);
        app.runtime_available = true;
        app.runtime_configured = true;
        proof {
            reveal(startup_view_spec);
        }
        app.apply_startup_view(startup);
        app.apply_inventory_snapshot(inventory);
        app
    }

    /// A host with its runtime and the operator's saved preferences:
    /// `launch_inventory` is the inventory collected with no preferences,
    /// `log_writer` whether the host log file beside the preferences file
    /// could be opened, and `inventory` the inventory collected with the
    /// saved preferences.
    fn take_in_preferences(&mut self, preferences: HostPreferences)
        ensures
            keeps_runtime(old(self)@, final(self)@),
            final(self)@ == preferences_taken_spec(old(self)@, preferences@),
    {
        proof {
            reveal(preferences_taken_spec);
        }
        let restored = match (&preferences.selected_device_id, &preferences.selected_source_id) {
            (Some(d), Some(src)) => Some(RestoredSourcePreference { device_id: d.clone(), source_id: src.clone() }),
            _ => None,
        };
        self.selected_device_id = crate::text::copy_opt(&preferences.selected_device_id);
        let units = preferences.ble_pointer_long_axis_units;
        self.preferences = preferences;
        self.preview_input_bridge.set_pointer_long_axis_units(units);
        self.direct_preview_config_changed = true;
        self.restored_source_preference = restored;
    }

    fn open_log(&mut self, log_writer: Result<(), String>)
        ensures
            keeps_runtime(old(self)@, final(self)@),
            final(self)@ == log_opened_spec(old(self)@, unit_result_view(log_writer)),
    {
        proof {
            reveal(log_opened_spec);
        }
        let ghost s1 = self@;
        match log_writer {
            Ok(_) => {
                self.log_writer_open = true;
                let ghost before = self.pending_log_lines@;
                let n = self.diagnostics.log_lines.len();
                let mut i: usize = 0;
                while i < n
                    invariant
                        self@ == (AppView { pending_log: texts(self.pending_log_lines@), log_writer_open: true, ..s1 }),
                        texts(before) == s1.pending_log,
                        n == self.diagnostics.log_lines@.len(),
                        i <= n,
                        texts(self.pending_log_lines@) == texts(before) + texts(self.diagnostics.log_lines@).subrange(0, i as int),
                    decreases n - i,
                {
                    let ghost prior = self.pending_log_lines@;
                    let line = self.diagnostics.log_lines[i].clone();
                    self.pending_log_lines.push(line);
                    proof {
                        assert(texts(self.pending_log_lines@) =~= texts(prior).push(line@));
                        assert(texts(self.diagnostics.log_lines@).subrange(0, i + 1) =~= texts(
                            self.diagnostics.log_lines@,
                        ).subrange(0, i as int).push(line@));
                    }
                    i = i + 1;
                }
                assert(texts(self.diagnostics.log_lines@).subrange(0, n as int) =~= texts(self.diagnostics.log_lines@));
            },
            Err(error) => {
                let line = crate::text::joined("host log file unavailable: ", error.as_str());
                let _ = self.diagnostics.record_host_log_line(line.as_str());
            },
        }
    }

    fn show_preferences_files(&mut self, preferences_path: &str)
        ensures
            keeps_runtime(old(self)@, final(self)@),
            settings_rows_for(preferences_path@, final(self)@.settings),
            final(self)@ == (AppView { settings: final(self)@.settings, ..old(self)@ }),
    {
        self.settings.rows = SettingsViewModel::from_preferences_path(Some(preferences_path)).rows;
        proof {
            let rows = texts(self.settings.rows@);
            assert(rows[0] == self.settings.rows@[0]@);
            assert(rows[1] == self.settings.rows@[1]@);
        }
    }

    #[verifier::rlimit(100)]
    pub fn with_runtime_and_preferences(
        startup: StartupViewModel,
        launch_inventory: InventorySnapshot,
        preferences: HostPreferences,
        preferences_path: &str,
        log_writer: Result<(), String>,
        inventory: InventorySnapshot,
        env_pointer_long_axis_units: Option<u32>,
    ) -> (r: Self)
        ensures
            exists|settings: Seq<Seq<char>>|
                settings_rows_for(preferences_path@, settings) && r@ == launch_with_preferences_spec(
                    with_runtime_spec(startup, device_views(launch_inventory.devices@), env_pointer_long_axis_units),
                    preferences@,
                    unit_result_view(log_writer),
                    settings,
                    device_views(inventory.devices@),
                ),
    {
        proof {
            reveal(launch_with_preferences_spec);
        }
        let ghost prefs = preferences@;
        let saved_selection = crate::text::copy_opt(&preferences.selected_device_id);
        let mut app = Self::with_runtime(startup, launch_inventory, env_pointer_long_axis_units);
        let ghost s = app@;
        let ghost writer = unit_result_view(log_writer);
        app.take_in_preferences(preferences);
        app.open_log(log_writer);
        let ghost s2 = log_opened_spec(preferences_taken_spec(s, prefs), writer);
        app.show_preferences_files(preferences_path);
        let ghost settings = app@.settings;
        assert(app@ == AppView { settings, ..s2 });
        assert(wf(app@));
        app.apply_inventory_snapshot(inventory);
        if saved_selection.is_some() {
            app.selected_device_id = saved_selection;
            app.sync_selected_workspace();
        }
        assert(settings_rows_for(preferences_path@, settings) && app@ == launch_with_preferences_spec(
            s,
            prefs,
            writer,
            settings,
            device_views(inventory.devices@),
        ));
        app
    }
}

} // verus!
