use host_desktop::preferences::HostPreferencesStore;
use std::path::PathBuf;

#[test]
fn preferences_path_uses_linux_xdg_or_home_fallback() {
    let xdg = PathBuf::from("/tmp/xdg-home");
    let home = PathBuf::from("/tmp/home");

    let from_xdg = HostPreferencesStore::path_from_env(
        Some("/tmp/xdg-home"),
        Some("/tmp/home"),
        None,
    )
    .unwrap();
    assert_eq!(
        PathBuf::from(from_xdg),
        xdg.join("ios-control").join("host-preferences.json")
    );

    let from_home = HostPreferencesStore::path_from_env(None, Some("/tmp/home"), None).unwrap();
    assert_eq!(
        PathBuf::from(from_home),
        home.join(".config")
            .join("ios-control")
            .join("host-preferences.json")
    );
}

#[test]
fn log_directory_is_sibling_to_preferences_file() {
    let prefs = "/tmp/app/ios-control/host-preferences.json";
    assert_eq!(
        PathBuf::from(HostPreferencesStore::log_dir_for_preferences_path(prefs)),
        PathBuf::from("/tmp/app/ios-control/logs")
    );
}

#[test]
fn save_writes_through_a_hidden_temporary_file_name() {
    assert_eq!(
        HostPreferencesStore::temp_file_name("host-preferences.json", 1700000000123456789),
        ".host-preferences.json.1700000000123456789.tmp"
    );
    assert_eq!(HostPreferencesStore::temp_file_name("p", 0), ".p.0.tmp");
}
