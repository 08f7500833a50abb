use host_desktop::inventory::model::{CapabilityState, InventoryEvidenceSource};
use host_desktop::inventory::providers::bluetooth::{
    collapse_windows_records, discover_bluetooth_devices, strip_aux_bluetooth_suffix,
    BluetoothDeviceRecord,
};
use host_desktop::preferences::{HostPreferences, KnownDevicePreference};
use host_desktop::protocol::ControlCapability;

fn record(stable_id: &str, display_name: &str, container_id: Option<&str>) -> BluetoothDeviceRecord {
    BluetoothDeviceRecord {
        stable_id: stable_id.into(),
        display_name: display_name.into(),
        container_id: container_id.map(str::to_string),
    }
}

fn alice_records() -> Vec<BluetoothDeviceRecord> {
    vec![
        record("BTHENUM\\DEV_A", "Alice iPhone", Some("{PHONE-1}")),
        record("BTHENUM\\DEV_B", "Alice iPhone", Some("{PHONE-1}")),
        record("BTHENUM\\DEV_C", "Alice iPhone AVRCP Transport", Some("{PHONE-1}")),
        record("BTHENUM\\DEV_D", "Alice iPhone AVRCP Transport", Some("{PHONE-1}")),
    ]
}

#[test]
fn bluetooth_provider_collapses_multiple_windows_records_for_one_phone() {
    // The BLE control probe of a plugin that does not exist fails.
    let devices = discover_bluetooth_devices(Some(alice_records()), None, &HostPreferences::default());

    assert_eq!(devices.len(), 1);
    assert_eq!(devices[0].display_name, "Alice iPhone");
}

#[test]
fn bluetooth_observation_carries_container_key_and_control_probe() {
    let devices = discover_bluetooth_devices(
        Some(alice_records()),
        Some(ControlCapability {
            backend_id: "control.ble".into(),
            transport: "BleHid".into(),
            supported: false,
            reason: None,
        }),
        &HostPreferences::default(),
    );

    assert_eq!(devices.len(), 1);
    assert_eq!(devices[0].provider, InventoryEvidenceSource::Bluetooth);
    assert_eq!(devices[0].stable_id.as_deref(), Some("{PHONE-1}"));
    assert!(devices[0].live);
    assert_eq!(
        devices[0].preferred_control_state,
        CapabilityState::Blocked("preferred control unavailable".into())
    );
    assert_eq!(devices[0].reasons, vec!["paired over bluetooth".to_string()]);
}

#[test]
fn no_bluetooth_records_means_no_observations() {
    assert!(discover_bluetooth_devices(None, None, &HostPreferences::default()).is_empty());
}

#[test]
fn known_device_matches_any_raw_stable_id_of_the_phone() {
    let mut preferences = HostPreferences::default();
    preferences.known_devices.push(KnownDevicePreference {
        known_device_id: "known-alice".into(),
        display_name: "Alice".into(),
        stable_id: Some("BTHENUM\\DEV_C".into()),
        last_source_id: None,
    });

    let devices = discover_bluetooth_devices(Some(alice_records()), None, &preferences);

    assert_eq!(devices[0].known_device_id.as_deref(), Some("known-alice"));
}

#[test]
fn records_without_container_stay_separate_and_sorted_by_key() {
    let devices = collapse_windows_records(vec![
        record("dev-b", "Bob iPad Headset", Some("  ")),
        record("dev-a", "Alice iPhone Stereo", None),
    ]);

    assert_eq!(devices.len(), 2);
    assert_eq!(devices[0].stable_id, "dev-a");
    assert_eq!(devices[0].display_name, "Alice iPhone");
    assert_eq!(devices[0].raw_stable_ids, vec!["dev-a".to_string()]);
    assert_eq!(devices[1].stable_id, "dev-b");
    assert_eq!(devices[1].display_name, "Bob iPad");
}

#[test]
fn aux_suffixes_are_cut_with_their_white_space() {
    assert_eq!(strip_aux_bluetooth_suffix("Alice iPhone AVRCP Transport"), "Alice iPhone");
    assert_eq!(strip_aux_bluetooth_suffix("Alice iPhone  Hands-Free AG Audio"), "Alice iPhone");
    assert_eq!(strip_aux_bluetooth_suffix("Alice iPhone Headset"), "Alice iPhone");
    assert_eq!(strip_aux_bluetooth_suffix("Alice iPhone Stereo"), "Alice iPhone");
    assert_eq!(strip_aux_bluetooth_suffix("Alice iPhone"), "Alice iPhone");
}
