//! What one frame of the host's window does with the state: its timers, and
//! the operator's actions in the launcher, the settings and the session
//! window.
use vstd::prelude::*;
use crate::inventory::model::opt_view;
use crate::panels::launcher::LauncherAction;
use crate::panels::session_view::SessionAction;
use crate::panels::settings::SettingsAction;
use crate::preview::event_views;
use super::input::forward_spec;
use super::inventory::poll_inventory_spec;
use super::navigation::{request_open_spec, select_device_spec};
use super::refresh::poll_runtime_spec;
use super::settings::{pointer_units_spec, preview_fps_spec, preview_height_spec};
use super::start::{request_start_spec, stop_spec};
use super::workspace::wf;
use super::{keeps_runtime, AppView, HostDesktopApp, WAITING_FOR_MIRROR_REFRESH_POLL_INTERVAL_MS, INVENTORY_REFRESH_POLL_INTERVAL_MS};

verus! {

/// The device of the session menu: the workspace's device, else the session
/// window's, else the selected one.
pub open spec fn session_menu_device_spec(s: AppView) -> Option<Seq<char>> {
    match s.workspace {
        Some(w) => Some(w.device_id@),
        None => match s.window_device {
            Some(d) => Some(d),
            None => s.selected_device_id,
        },
    }
}

/// A launcher action taken: selecting a device, or selecting and opening it.
pub open spec fn launcher_action_spec(s: AppView, action: LauncherAction) -> AppView {
    match action {
        LauncherAction::NoAction => s,
        LauncherAction::SelectDevice(id) => select_device_spec(s, id@),
        LauncherAction::OpenDevice(id) => request_open_spec(select_device_spec(s, id@)),
    }
}

/// A settings action taken.
pub open spec fn settings_action_spec(s: AppView, action: SettingsAction) -> AppView {
    match action {
        SettingsAction::NoAction => s,
        SettingsAction::SetBlePointerLongAxisUnits(u) => pointer_units_spec(s, u),
        SettingsAction::SetDirectPreviewFps(f) => preview_fps_spec(s, f),
        SettingsAction::SetDirectPreviewHeight(h) => preview_height_spec(s, h),
    }
}

/// A session action taken: a start, a stop, or input to forward.
pub open spec fn session_action_spec(s: AppView, action: SessionAction, log: bool) -> AppView {
    match action {
        SessionAction::NoAction => s,
        SessionAction::Start => request_start_spec(s),
        SessionAction::Stop => stop_spec(s),
        SessionAction::ControlInput(events) => forward_spec(s, event_views(events@), log),
    }
}

impl HostDesktopApp {
    /// The device whose row carries the session menu.
    pub fn session_menu_device_id(&self) -> (r: Option<String>)
        ensures
            opt_view(r) == session_menu_device_spec(self@),
    {
        match &self.runtime_workspace {
            Some(w) => Some(w.device_id.clone()),
            None => match &self.session_window_device_id {
                Some(d) => Some(d.clone()),
                None => crate::text::copy_opt(&self.selected_device_id),
            },
        }
    }

    /// Runs the inventory and session refresh timers at the host's time `now`
    /// (in milliseconds).
    pub fn poll_refreshes(&mut self, now: u64)
        requires
            wf(old(self)@),
            now <= u64::MAX - INVENTORY_REFRESH_POLL_INTERVAL_MS,
        ensures
            final(self)@ == poll_runtime_spec(poll_inventory_spec(old(self)@, now), now),
    {
        self.poll_inventory_refresh_if_due(now);
        self.poll_runtime_refresh_if_due(now);
    }

    /// Takes a launcher action.
    pub fn apply_launcher_action(&mut self, action: LauncherAction)
        requires
            wf(old(self)@),
        ensures
            keeps_runtime(old(self)@, final(self)@),
            final(self)@ == launcher_action_spec(old(self)@, action),
    {
        match action {
            LauncherAction::NoAction => {},
            LauncherAction::SelectDevice(id) => {
                self.select_device(id.as_str());
            },
            LauncherAction::OpenDevice(id) => {
                self.select_device(id.as_str());
                self.request_open_selected_device_session();
            },
        }
    }

    /// Takes a settings action.
    pub fn apply_settings_action(&mut self, action: SettingsAction)
        ensures
            keeps_runtime(old(self)@, final(self)@),
            final(self)@ == settings_action_spec(old(self)@, action),
    {
        match action {
            SettingsAction::NoAction => {},
            SettingsAction::SetBlePointerLongAxisUnits(u) => self.set_ble_pointer_long_axis_units(u),
            SettingsAction::SetDirectPreviewFps(f) => self.set_direct_preview_fps(f),
            SettingsAction::SetDirectPreviewHeight(h) => self.set_direct_preview_height(h),
        }
    }

    /// Takes a session action; `preview_input_log` says whether forwarded
    /// input is logged.
    pub fn apply_session_action(&mut self, action: SessionAction, preview_input_log: bool)
        ensures
            final(self)@ == session_action_spec(old(self)@, action, preview_input_log),
    {
        match action {
            SessionAction::NoAction => {},
            SessionAction::Start => self.request_start_session(),
            SessionAction::Stop => self.stop_session(),
            SessionAction::ControlInput(events) => self.forward_preview_input(events, preview_input_log),
        }
    }
}

} // verus!
