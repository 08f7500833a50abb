//! The device inventory: observations from each provider, merged into rows.
use vstd::prelude::*;
use crate::inventory::aggregator::{aggregate_inventory, aggregate_spec};
use crate::inventory::model::{device_views, observation_views, DeviceObservation, InventorySnapshot};
use crate::inventory::providers::bluetooth::{
    bluetooth_observations_spec, discover_bluetooth_devices, opt_record_views,
    BluetoothDeviceRecord,
};
use crate::inventory::providers::known_devices::{discover_known_devices, known_observations_spec};
use crate::inventory::providers::mirror::{
    discover_mirror_devices, mirror_observations_spec, opt_source_views,
};
use crate::preferences::{known_views, HostPreferences};
use crate::protocol::{CaptureCapability, ControlCapability, VideoSource};

pub mod aggregator;
pub mod laws;
pub mod model;
pub mod providers;

verus! {

/// The inventory of one refresh: the Bluetooth observations, then the mirror
/// observations, then the known devices, merged into rows. The arguments are
/// what the providers' probes returned (none where a probe failed).
pub fn collect_inventory_snapshot(
    bluetooth_records: Option<Vec<BluetoothDeviceRecord>>,
    ble_control: Option<ControlCapability>,
    capture_capability: Option<CaptureCapability>,
    capture_sources: Option<Vec<VideoSource>>,
    fallback_control: Option<ControlCapability>,
    preferences: &HostPreferences,
) -> (snapshot: InventorySnapshot)
    ensures
        device_views(snapshot.devices@) == aggregate_spec(
            bluetooth_observations_spec(
                opt_record_views(bluetooth_records),
                ble_control,
                known_views(preferences.known_devices@),
            ) + mirror_observations_spec(
                capture_capability,
                opt_source_views(capture_sources),
                fallback_control,
                known_views(preferences.known_devices@),
            ) + known_observations_spec(known_views(preferences.known_devices@)),
        ),
{
    let mut bluetooth = discover_bluetooth_devices(bluetooth_records, ble_control, preferences);
    let mut mirror = discover_mirror_devices(
        capture_capability,
        capture_sources,
        fallback_control,
        preferences,
    );
    let mut known = discover_known_devices(preferences);
    let ghost b = bluetooth@;
    let ghost m = mirror@;
    let ghost k = known@;
    let mut observations: Vec<DeviceObservation> = Vec::new();
    observations.append(&mut bluetooth);
    assert(observations@ =~= b);
    observations.append(&mut mirror);
    assert(observations@ =~= b + m);
    observations.append(&mut known);
    assert(observations@ =~= b + m + k);
    assert(observation_views(observations@) =~= observation_views(b) + observation_views(m)
        + observation_views(k));
    aggregate_inventory(observations)
}

} // verus!
