//! Host preferences: what the operator chose last time, and where the
//! preferences file and the host logs live.
use vstd::prelude::*;
use crate::host_path::{has_parent_dir, join_path, parent_of, path_joined, splits_at};
use crate::inventory::model::opt_view;
use crate::text::has_prefix;

verus! {

pub const DEFAULT_DIRECT_PREVIEW_FPS: u32 = 20;
pub const MIN_DIRECT_PREVIEW_FPS: u32 = 5;
pub const MAX_DIRECT_PREVIEW_FPS: u32 = 60;
pub const DEFAULT_DIRECT_PREVIEW_HEIGHT: u32 = 1280;
pub const MIN_DIRECT_PREVIEW_HEIGHT: u32 = 540;
pub const MAX_DIRECT_PREVIEW_HEIGHT: u32 = 1920;

/// A device the host has run a session with.
#[derive(Debug, PartialEq, Eq)]
pub struct KnownDevicePreference {
    pub known_device_id: String,
    pub display_name: String,
    pub stable_id: Option<String>,
    pub last_source_id: Option<String>,
}

/// The characters of a [`KnownDevicePreference`].
pub struct KnownDeviceView {
    pub known_device_id: Seq<char>,
    pub display_name: Seq<char>,
    pub stable_id: Option<Seq<char>>,
    pub last_source_id: Option<Seq<char>>,
}

impl View for KnownDevicePreference {
    type V = KnownDeviceView;

    open spec fn view(&self) -> KnownDeviceView {
        KnownDeviceView {
            known_device_id: self.known_device_id@,
            display_name: self.display_name@,
            stable_id: opt_view(self.stable_id),
            last_source_id: opt_view(self.last_source_id),
        }
    }
}

/// The views of the known devices.
pub open spec fn known_views(s: Seq<KnownDevicePreference>) -> Seq<KnownDeviceView> {
    s.map_values(|k: KnownDevicePreference| k@)
}

/// The operator's saved choices.
#[derive(Debug, PartialEq, Eq)]
pub struct HostPreferences {
    pub selected_device_id: Option<String>,
    pub selected_source_id: Option<String>,
    pub ble_pointer_long_axis_units: Option<u32>,
    pub direct_preview_fps: Option<u32>,
    pub direct_preview_height: Option<u32>,
    pub known_devices: Vec<KnownDevicePreference>,
}

/// The operator's saved choices, with their texts as characters.
pub struct PreferencesView {
    pub selected_device_id: Option<Seq<char>>,
    pub selected_source_id: Option<Seq<char>>,
    pub ble_pointer_long_axis_units: Option<u32>,
    pub direct_preview_fps: Option<u32>,
    pub direct_preview_height: Option<u32>,
    pub known_devices: Seq<KnownDeviceView>,
}

impl View for HostPreferences {
    type V = PreferencesView;

    open spec fn view(&self) -> PreferencesView {
        PreferencesView {
            selected_device_id: opt_view(self.selected_device_id),
            selected_source_id: opt_view(self.selected_source_id),
            ble_pointer_long_axis_units: self.ble_pointer_long_axis_units,
            direct_preview_fps: self.direct_preview_fps,
            direct_preview_height: self.direct_preview_height,
            known_devices: known_views(self.known_devices@),
        }
    }
}

/// `value` limited to `lo..=hi`.
pub open spec fn clamp_spec(value: u32, lo: u32, hi: u32) -> u32 {
    if value < lo {
        lo
    } else if value > hi {
        hi
    } else {
        value
    }
}

/// `value`, or `default` when there is none.
pub open spec fn or_default(value: Option<u32>, default: u32) -> u32 {
    match value {
        Some(v) => v,
        None => default,
    }
}

/// Width of a 9:16 preview of the given height, rounded to nearest and at least 1.
pub open spec fn width_for_height_spec(height: u32) -> u32 {
    let w = (height as int * 9 + 8) / 16;
    if w < 1 {
        1
    } else {
        w as u32
    }
}

/// `value` limited to `lo..=hi` (`u32::clamp`, for `lo <= hi`).
pub fn clamp_u32(value: u32, lo: u32, hi: u32) -> (r: u32)
    requires
        lo <= hi,
    ensures
        r == clamp_spec(value, lo, hi),
{
    if value < lo {
        lo
    } else if value > hi {
        hi
    } else {
        value
    }
}

impl HostPreferences {
    /// Frame rate of the direct receiver's preview: the saved value, else 20,
    /// limited to 5..=60.
    pub fn direct_preview_fps(&self) -> (r: u32)
        ensures
            r == clamp_spec(
                or_default(self.direct_preview_fps, DEFAULT_DIRECT_PREVIEW_FPS),
                MIN_DIRECT_PREVIEW_FPS,
                MAX_DIRECT_PREVIEW_FPS,
            ),
            MIN_DIRECT_PREVIEW_FPS <= r <= MAX_DIRECT_PREVIEW_FPS,
    {
        let value = match self.direct_preview_fps {
            Some(v) => v,
            None => DEFAULT_DIRECT_PREVIEW_FPS,
        };
        clamp_u32(value, MIN_DIRECT_PREVIEW_FPS, MAX_DIRECT_PREVIEW_FPS)
    }

    /// Height of the direct receiver's preview: the saved value, else 1280,
    /// limited to 540..=1920.
    pub fn direct_preview_height(&self) -> (r: u32)
        ensures
            r == clamp_spec(
                or_default(self.direct_preview_height, DEFAULT_DIRECT_PREVIEW_HEIGHT),
                MIN_DIRECT_PREVIEW_HEIGHT,
                MAX_DIRECT_PREVIEW_HEIGHT,
            ),
            MIN_DIRECT_PREVIEW_HEIGHT <= r <= MAX_DIRECT_PREVIEW_HEIGHT,
    {
        let value = match self.direct_preview_height {
            Some(v) => v,
            None => DEFAULT_DIRECT_PREVIEW_HEIGHT,
        };
        clamp_u32(value, MIN_DIRECT_PREVIEW_HEIGHT, MAX_DIRECT_PREVIEW_HEIGHT)
    }

    /// Width of the direct receiver's preview, 9:16 to its height.
    pub fn direct_preview_width(&self) -> (r: u32)
        ensures
            r == width_for_height_spec(
                clamp_spec(
                    or_default(self.direct_preview_height, DEFAULT_DIRECT_PREVIEW_HEIGHT),
                    MIN_DIRECT_PREVIEW_HEIGHT,
                    MAX_DIRECT_PREVIEW_HEIGHT,
                ),
            ),
    {
        direct_preview_width_for_height(self.direct_preview_height())
    }
}

impl Default for HostPreferences {
    fn default() -> (r: Self)
        ensures
            r.selected_device_id is None,
            r.selected_source_id is None,
            r.ble_pointer_long_axis_units is None,
            r.direct_preview_fps is None,
            r.direct_preview_height is None,
            r.known_devices@.len() == 0,
    {
        HostPreferences {
            selected_device_id: None,
            selected_source_id: None,
            ble_pointer_long_axis_units: None,
            direct_preview_fps: None,
            direct_preview_height: None,
            known_devices: Vec::new(),
        }
    }
}

/// Width of a 9:16 preview of the given height: `(height * 9 + 8) / 16`, at
/// least 1.
pub fn direct_preview_width_for_height(height: u32) -> (r: u32)
    ensures
        r == width_for_height_spec(height),
{
    let w: u64 = (height as u64 * 9 + 8) / 16;
    if w < 1 {
        1
    } else {
        w as u32
    }
}

/// Where the preferences are kept.
#[derive(Debug)]
pub struct HostPreferencesStore {
    path: String,
}

/// The preferences file sits in an `ios-control` directory under its base.
pub open spec fn preferences_path_under(r: Seq<char>, base: Seq<char>) -> bool {
    exists|dir: Seq<char>|
        path_joined(dir, base, "ios-control"@) && path_joined(r, dir, "host-preferences.json"@)
}

impl HostPreferencesStore {
    /// A store for the preferences file at `path`.
    pub fn new(path: String) -> (r: Self)
        ensures
            r@ == path@,
    {
        HostPreferencesStore { path }
    }

    /// The preferences file's path.
    pub fn path(&self) -> (r: &str)
        ensures
            r@ == self@,
    {
        self.path.as_str()
    }

    /// The directory that host logs go to: `logs` beside the preferences file
    /// (in the current directory when the path has no parent).
    pub fn log_dir_for_preferences_path(path: &str) -> (r: String)
        ensures
            log_dir_of(path@, r@),
    {
        let parent = parent_of(path);
        let ghost parent_view = crate::inventory::model::opt_view(parent);
        let base = log_dir_base(parent);
        assert forall|d: Seq<char>, n: Seq<char>| #[trigger] splits_at(path@, d, n) implies base@ == d by {
            assert(parent_view == Some(d));
            assert(d.len() > 0);
        }
        proof {
            reveal_strlit("logs");
        }
        let r = join_path(base.as_str(), "logs");
        assert(path_joined(r@, base@, "logs"@));
        r
    }

    /// The name of the temporary file that a save writes before it replaces
    /// the preferences file: `.<file name>.<nonce>.tmp`, hidden beside it.
    pub fn temp_file_name(file_name: &str, nonce: u128) -> (r: String)
        ensures
            r@ == "."@ + file_name@ + "."@ + crate::text::decimal(nonce as nat) + ".tmp"@,
    {
        let mut r = crate::text::joined(".", file_name);
        r.append(".");
        r.append(crate::text::decimal_text_wide(nonce).as_str());
        r.append(".tmp");
        r
    }

    /// The path of the preferences file for the given environment: under
    /// `appdata` if set, else under `xdg_config_home`, else under
    /// `home/.config`; none when none of them is set.
    pub fn path_from_env(
        xdg_config_home: Option<&str>,
        home: Option<&str>,
        appdata: Option<&str>,
    ) -> (r: Option<String>)
        ensures
            r is None <==> (xdg_config_home is None && home is None && appdata is None),
            appdata is Some ==> r is Some && preferences_path_under(r->0@, appdata->0@),
            appdata is None && xdg_config_home is Some ==> r is Some && preferences_path_under(
                r->0@,
                xdg_config_home->0@,
            ),
            appdata is None && xdg_config_home is None && home is Some ==> r is Some && exists|
                config: Seq<char>,
            |
                #[trigger] path_joined(config, home->0@, ".config"@) && preferences_path_under(
                    r->0@,
                    config,
                ),
    {
        if let Some(appdata) = appdata {
            return Some(preferences_file_under(appdata));
        }
        if let Some(xdg) = xdg_config_home {
            return Some(preferences_file_under(xdg));
        }
        match home {
            Some(home) => {
                proof {
                    reveal_strlit(".config");
                }
                let config = join_path(home, ".config");
                assert(path_joined(config@, home@, ".config"@));
                let r = preferences_file_under(config.as_str());
                assert(path_joined(config@, home@, ".config"@) && preferences_path_under(r@, config@));
                Some(r)
            },
            None => None,
        }
    }
}

/// `dir` is the log directory for the preferences file at `path`: `logs`
/// joined to the file's parent directory, or to `.` when it has none (which a
/// path with a directory before its file name always has). For a path
/// `dir/name` of plain parts the parent is exactly that `dir`.
pub open spec fn log_dir_of(path: Seq<char>, dir: Seq<char>) -> bool {
    exists|base: Seq<char>|
        #[trigger] path_joined(dir, base, "logs"@) && ((base == "."@ && !has_parent_dir(path)) || (base.len() > 0
            && has_prefix(path, base) && base.len() < path.len())) && forall|d: Seq<char>, n: Seq<char>|
            #[trigger] splits_at(path, d, n) ==> base == d
}

/// The characters of an optional string slice.
pub open spec fn str_opt_view(s: Option<&str>) -> Option<Seq<char>> {
    match s {
        Some(v) => Some(v@),
        None => None,
    }
}

impl View for HostPreferencesStore {
    type V = Seq<char>;

    closed spec fn view(&self) -> Seq<char> {
        self.path@
    }
}

/// `ios-control/host-preferences.json` under `base`.
fn preferences_file_under(base: &str) -> (r: String)
    ensures
        preferences_path_under(r@, base@),
{
    proof {
        reveal_strlit("ios-control");
        reveal_strlit("host-preferences.json");
    }
    let dir = join_path(base, "ios-control");
    let r = join_path(dir.as_str(), "host-preferences.json");
    assert(path_joined(dir@, base@, "ios-control"@));
    r
}

/// The directory that holds the log directory: the preferences file's parent,
/// or `.` when it has none or it is empty.
pub fn log_dir_base(parent: Option<String>) -> (r: String)
    ensures
        r@ == (match opt_view(parent) {
            Some(p) if p.len() > 0 => p,
            _ => "."@,
        }),
{
    match parent {
        Some(p) if p.unicode_len() > 0 => p,
        _ => crate::text::owned("."),
    }
}

/// The direct preview is a portrait 9:16 picture: its width is nine
/// sixteenths of its height rounded to the nearest pixel (`16 * width` is
/// within 8 of `9 * height`), never more than the height, and at least one
/// pixel.
pub proof fn law_preview_width_is_nine_sixteenths_of_height(height: u32)
    ensures
        width_for_height_spec(height) >= 1,
        height >= 1 ==> 9 * height - 8 < 16 * width_for_height_spec(height) <= 9 * height + 8,
        height >= 1 ==> width_for_height_spec(height) <= height,
        height == 0 ==> width_for_height_spec(height) == 1,
{
    let nearest = (9 * height as int + 8) / 16;
    assert(16 * nearest <= 9 * height as int + 8 < 16 * nearest + 16) by (nonlinear_arith)
        requires
            nearest == (9 * height as int + 8) / 16,
    ;
    assert(nearest <= u32::MAX);
}

} // verus!
