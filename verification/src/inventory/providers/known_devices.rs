//! Devices known from earlier sessions.
use vstd::prelude::*;
use crate::inventory::model::{
    observation_views, CapabilityState, CapabilityView, DeviceObservation, InventoryEvidenceSource,
    ObservationView,
};
use crate::ordered::texts;
use crate::preferences::{known_views, HostPreferences, KnownDeviceView};

verus! {

/// The observation of a known device: historical, with no capability.
pub open spec fn known_observation_spec(known: KnownDeviceView) -> ObservationView {
    ObservationView {
        provider: InventoryEvidenceSource::Known,
        stable_id: known.stable_id,
        known_device_id: Some(known.known_device_id),
        display_name: known.display_name,
        mirror_source_id: known.last_source_id,
        live: false,
        capture_state: CapabilityView::Unavailable,
        preferred_control_state: CapabilityView::Unavailable,
        fallback_control_state: CapabilityView::Unavailable,
        reasons: seq!["known from history only"@],
    }
}

/// The observations of the known devices.
pub open spec fn known_observations_spec(knowns: Seq<KnownDeviceView>) -> Seq<ObservationView> {
    knowns.map_values(|k: KnownDeviceView| known_observation_spec(k))
}

/// One historical observation per device in the preferences, in their order.
pub fn discover_known_devices(preferences: &HostPreferences) -> (r: Vec<DeviceObservation>)
    ensures
        observation_views(r@) == known_observations_spec(known_views(preferences.known_devices@)),
{
    let ghost goal = known_views(preferences.known_devices@).map_values(
        |k: KnownDeviceView| known_observation_spec(k),
    );
    let mut r: Vec<DeviceObservation> = Vec::new();
    let mut i: usize = 0;
    while i < preferences.known_devices.len()
        invariant
            i <= preferences.known_devices@.len(),
            goal == known_views(preferences.known_devices@).map_values(
                |k: KnownDeviceView| known_observation_spec(k),
            ),
            observation_views(r@) == goal.subrange(0, i as int),
        decreases preferences.known_devices@.len() - i,
    {
        let known = &preferences.known_devices[i];
        let mut reasons: Vec<String> = Vec::new();
        reasons.push(crate::text::owned("known from history only"));
        let observation = DeviceObservation {
            provider: InventoryEvidenceSource::Known,
            stable_id: crate::text::copy_opt(&known.stable_id),
            known_device_id: Some(known.known_device_id.clone()),
            display_name: known.display_name.clone(),
            mirror_source_id: crate::text::copy_opt(&known.last_source_id),
            live: false,
            capture_state: CapabilityState::Unavailable,
            preferred_control_state: CapabilityState::Unavailable,
            fallback_control_state: CapabilityState::Unavailable,
            reasons,
        };
        assert(texts(observation.reasons@) =~= seq!["known from history only"@]);
        assert(observation@ == known_observation_spec(known@));
        assert(known_views(preferences.known_devices@)[i as int] == known@);
        assert(goal[i as int] == known_observation_spec(known@));
        let ghost before = r@;
        assert(known_views(preferences.known_devices@).len() == preferences.known_devices@.len());
        assert(goal.len() == preferences.known_devices@.len());
        assert(observation_views(before).len() == before.len());
        assert(before.len() == i);
        r.push(observation);
        assert(r@ == before.push(observation));
        assert forall|m: int| 0 <= m < i + 1 implies #[trigger] observation_views(r@)[m] == goal[m] by {
            if m < i {
                assert(observation_views(before)[m] == goal.subrange(0, i as int)[m]);
                assert(r@[m] == before[m]);
            } else {
                assert(r@[m] == observation);
            }
        }
        assert(observation_views(r@) =~= goal.subrange(0, i + 1));
        i = i + 1;
    }
    assert(goal.subrange(0, i as int) =~= goal);
    r
}

} // verus!
