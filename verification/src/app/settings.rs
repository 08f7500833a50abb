//! The operator's settings: BLE pointer scale and direct preview size and
//! rate.
use vstd::prelude::*;
use crate::preferences::{
    clamp_spec, or_default, PreferencesView, DEFAULT_DIRECT_PREVIEW_FPS,
    DEFAULT_DIRECT_PREVIEW_HEIGHT, MAX_DIRECT_PREVIEW_FPS, MAX_DIRECT_PREVIEW_HEIGHT,
    MIN_DIRECT_PREVIEW_FPS, MIN_DIRECT_PREVIEW_HEIGHT,
};
use crate::preview::{clamp_units, BridgeView};
use crate::text::decimal;
use super::{keeps_runtime, with_log_line, AppView, HostDesktopApp};

verus! {

/// An optional number as text, `auto` when there is none.
pub open spec fn units_text(units: Option<u32>) -> Seq<char> {
    match units {
        Some(v) => decimal(v as nat),
        None => "auto"@,
    }
}

/// Setting the BLE pointer scale: the preview input takes it (limited to the
/// supported range) and stops tracking the device pointer, the preferences
/// keep it, and the change is logged.
pub open spec fn pointer_units_spec(s: AppView, units: Option<u32>) -> AppView {
    let kept = clamp_units(units);
    with_log_line(
        AppView {
            bridge: BridgeView { pointer_long_axis_units: kept, device_pointer: None, ..s.bridge },
            preferences: PreferencesView { ble_pointer_long_axis_units: kept, ..s.preferences },
            preferences_changed: true,
            ..s
        },
        "BLE pointer scale set to "@ + units_text(kept),
    )
}

/// An optional value limited to `lo..=hi`.
pub open spec fn clamp_opt(v: Option<u32>, lo: u32, hi: u32) -> Option<u32> {
    match v {
        Some(x) => Some(clamp_spec(x, lo, hi)),
        None => None,
    }
}

/// Setting the direct preview rate: kept (limited to 5..=60) in the
/// preferences, handed to the runtime, and logged with the rate in effect.
pub open spec fn preview_fps_spec(s: AppView, fps: Option<u32>) -> AppView {
    let kept = clamp_opt(fps, MIN_DIRECT_PREVIEW_FPS, MAX_DIRECT_PREVIEW_FPS);
    with_log_line(
        AppView {
            preferences: PreferencesView { direct_preview_fps: kept, ..s.preferences },
            preferences_changed: true,
            preview_config_changed: true,
            ..s
        },
        "Direct preview FPS set to "@ + decimal(
            clamp_spec(
                or_default(kept, DEFAULT_DIRECT_PREVIEW_FPS),
                MIN_DIRECT_PREVIEW_FPS,
                MAX_DIRECT_PREVIEW_FPS,
            ) as nat,
        ),
    )
}

/// Setting the direct preview height: kept (limited to 540..=1920) in the
/// preferences, handed to the runtime, and logged with the height in effect.
pub open spec fn preview_height_spec(s: AppView, height: Option<u32>) -> AppView {
    let kept = clamp_opt(height, MIN_DIRECT_PREVIEW_HEIGHT, MAX_DIRECT_PREVIEW_HEIGHT);
    with_log_line(
        AppView {
            preferences: PreferencesView { direct_preview_height: kept, ..s.preferences },
            preferences_changed: true,
            preview_config_changed: true,
            ..s
        },
        "Direct preview height set to "@ + decimal(
            clamp_spec(
                or_default(kept, DEFAULT_DIRECT_PREVIEW_HEIGHT),
                MIN_DIRECT_PREVIEW_HEIGHT,
                MAX_DIRECT_PREVIEW_HEIGHT,
            ) as nat,
        ),
    )
}

impl HostDesktopApp {
    /// Sets the BLE pointer scale (`None` for the automatic scale).
    pub fn set_ble_pointer_long_axis_units(&mut self, units: Option<u32>)
        ensures
            keeps_runtime(old(self)@, final(self)@),
            final(self)@ == pointer_units_spec(old(self)@, units),
    {
        self.preview_input_bridge.set_pointer_long_axis_units(units);
        self.preferences.ble_pointer_long_axis_units = self.preview_input_bridge.pointer_long_axis_units();
        self.preferences_changed = true;
        let value = match self.preferences.ble_pointer_long_axis_units {
            Some(v) => crate::text::decimal_text(v as u64),
            None => crate::text::owned("auto"),
        };
        let line = crate::text::joined("BLE pointer scale set to ", value.as_str());
        self.log_line(line);
    }

    /// Sets the direct preview rate (`None` for the default).
    pub fn set_direct_preview_fps(&mut self, fps: Option<u32>)
        ensures
            keeps_runtime(old(self)@, final(self)@),
            final(self)@ == preview_fps_spec(old(self)@, fps),
    {
        self.preferences.direct_preview_fps = match fps {
            Some(v) => Some(crate::preferences::clamp_u32(v, MIN_DIRECT_PREVIEW_FPS, MAX_DIRECT_PREVIEW_FPS)),
            None => None,
        };
        self.direct_preview_config_changed = true;
        self.preferences_changed = true;
        let value = crate::text::decimal_text(self.preferences.direct_preview_fps() as u64);
        let line = crate::text::joined("Direct preview FPS set to ", value.as_str());
        self.log_line(line);
    }

    /// Sets the direct preview height (`None` for the default).
    pub fn set_direct_preview_height(&mut self, height: Option<u32>)
        ensures
            keeps_runtime(old(self)@, final(self)@),
            final(self)@ == preview_height_spec(old(self)@, height),
    {
        self.preferences.direct_preview_height = match height {
            Some(v) => Some(
                crate::preferences::clamp_u32(v, MIN_DIRECT_PREVIEW_HEIGHT, MAX_DIRECT_PREVIEW_HEIGHT),
            ),
            None => None,
        };
        self.direct_preview_config_changed = true;
        self.preferences_changed = true;
        let value = crate::text::decimal_text(self.preferences.direct_preview_height() as u64);
        let line = crate::text::joined("Direct preview height set to ", value.as_str());
        self.log_line(line);
    }
}

} // verus!
