//! Devices seen through a live mirror source of the window-capture plugin.
use vstd::prelude::*;
use crate::inventory::model::{
    observation_views, opt_view, CapabilityState, CapabilityView, DeviceObservation,
    InventoryEvidenceSource, ObservationView,
};
use crate::inventory::providers::bluetooth::control_state_spec;
use crate::ordered::texts;
use crate::preferences::{known_views, HostPreferences, KnownDevicePreference, KnownDeviceView};
use crate::protocol::{source_views, CaptureCapability, ControlCapability, SourceView, VideoSource};

verus! {

/// The first known device whose last source is `source_id`.
pub open spec fn known_for_source(knowns: Seq<KnownDeviceView>, source_id: Seq<char>) -> Option<
    KnownDeviceView,
>
    decreases knowns.len(),
{
    if knowns.len() == 0 {
        None
    } else if knowns[0].last_source_id == Some(source_id) {
        Some(knowns[0])
    } else {
        known_for_source(knowns.drop_first(), source_id)
    }
}

/// The observation of one live mirror source.
pub open spec fn mirror_observation_spec(
    source: SourceView,
    fallback: CapabilityView,
    knowns: Seq<KnownDeviceView>,
) -> ObservationView {
    let known = known_for_source(knowns, source.source_id);
    ObservationView {
        provider: InventoryEvidenceSource::Mirror,
        stable_id: match known {
            Some(k) => k.stable_id,
            None => None,
        },
        known_device_id: match known {
            Some(k) => Some(k.known_device_id),
            None => None,
        },
        display_name: source.display_name,
        mirror_source_id: Some(source.source_id),
        live: true,
        capture_state: CapabilityView::Ready,
        preferred_control_state: CapabilityView::Unavailable,
        fallback_control_state: fallback,
        reasons: match fallback {
            CapabilityView::Blocked(reason) => seq![reason],
            _ => seq![],
        },
    }
}

/// The capture probe found the window capture available.
pub open spec fn capture_usable(capture: Option<CaptureCapability>) -> bool {
    capture is Some && capture->0.available
}

/// The observations that the mirror probes give.
pub open spec fn mirror_observations_spec(
    capture_capability: Option<CaptureCapability>,
    sources: Option<Seq<SourceView>>,
    fallback_control: Option<ControlCapability>,
    knowns: Seq<KnownDeviceView>,
) -> Seq<ObservationView> {
    if !capture_usable(capture_capability) || sources is None {
        seq![]
    } else {
        sources->0.map_values(
            |s: SourceView|
                mirror_observation_spec(
                    s,
                    control_state_spec(fallback_control, "fallback control unavailable"@),
                    knowns,
                ),
        )
    }
}

/// The views of optional sources.
pub open spec fn opt_source_views(sources: Option<Vec<VideoSource>>) -> Option<Seq<SourceView>> {
    match sources {
        Some(s) => Some(source_views(s@)),
        None => None,
    }
}

/// One live observation per mirror source, ready to capture, with the window
/// input bridge's probe as the fallback control path; none when the capture
/// plugin is unavailable or its sources could not be listed.
pub fn discover_mirror_devices(
    capture_capability: Option<CaptureCapability>,
    sources: Option<Vec<VideoSource>>,
    fallback_control: Option<ControlCapability>,
    preferences: &HostPreferences,
) -> (r: Vec<DeviceObservation>)
    ensures
        observation_views(r@) == mirror_observations_spec(
            capture_capability,
            opt_source_views(sources),
            fallback_control,
            known_views(preferences.known_devices@),
        ),
{
    let usable = match &capture_capability {
        Some(capability) => capability.available,
        None => false,
    };
    if !usable || sources.is_none() {
        let r: Vec<DeviceObservation> = Vec::new();
        assert(observation_views(r@) =~= seq![]);
        return r;
    }
    let sources = match sources {
        Some(sources) => sources,
        None => return Vec::new(),
    };
    let fallback_control_state = map_control_state(fallback_control);
    let ghost fallback = fallback_control_state@;
    let ghost knowns = known_views(preferences.known_devices@);
    let ghost goal = source_views(sources@).map_values(
        |s: SourceView| mirror_observation_spec(s, fallback, knowns),
    );
    let mut r: Vec<DeviceObservation> = Vec::new();
    let mut i: usize = 0;
    while i < sources.len()
        invariant
            i <= sources@.len(),
            goal == source_views(sources@).map_values(
                |s: SourceView| mirror_observation_spec(s, fallback, knowns),
            ),
            goal.len() == sources@.len(),
            fallback == fallback_control_state@,
            knowns == known_views(preferences.known_devices@),
            observation_views(r@) == goal.subrange(0, i as int),
        decreases sources@.len() - i,
    {
        let source = &sources[i];
        let known = find_known_for_source(&preferences.known_devices, source.source_id.as_str());
        let mut reasons: Vec<String> = Vec::new();
        if let CapabilityState::Blocked(reason) = &fallback_control_state {
            reasons.push(reason.clone());
        }
        let (stable_id, known_device_id) = match known {
            Some(k) => (
                crate::text::copy_opt(&preferences.known_devices[k].stable_id),
                Some(preferences.known_devices[k].known_device_id.clone()),
            ),
            None => (None, None),
        };
        let observation = DeviceObservation {
            provider: InventoryEvidenceSource::Mirror,
            stable_id,
            known_device_id,
            display_name: source.display_name.clone(),
            mirror_source_id: Some(source.source_id.clone()),
            live: true,
            capture_state: CapabilityState::Ready,
            preferred_control_state: CapabilityState::Unavailable,
            fallback_control_state: fallback_control_state.clone(),
            reasons,
        };
        assert(texts(observation.reasons@) =~= (match fallback {
            CapabilityView::Blocked(reason) => seq![reason],
            _ => seq![],
        }));
        assert(source_views(sources@)[i as int] == source@);
        assert(observation@ == goal[i as int]);
        let ghost before = r@;
        assert(observation_views(before).len() == before.len());
        r.push(observation);
        assert forall|m: int| 0 <= m < i + 1 implies #[trigger] observation_views(r@)[m]
            == goal[m] by {
            if m < i {
                assert(observation_views(before)[m] == goal.subrange(0, i as int)[m]);
            }
        }
        assert(observation_views(r@) =~= goal.subrange(0, i + 1));
        i = i + 1;
    }
    assert(goal.subrange(0, i as int) =~= goal);
    r
}

/// Index of the first known device whose last source is `source_id`.
fn find_known_for_source(knowns: &Vec<KnownDevicePreference>, source_id: &str) -> (r: Option<usize>)
    ensures
        match r {
            Some(k) => k < knowns@.len() && known_for_source(known_views(knowns@), source_id@)
                == Some(knowns@[k as int]@),
            None => known_for_source(known_views(knowns@), source_id@) is None,
        },
{
    let ghost all = known_views(knowns@);
    let mut i: usize = 0;
    assert(all.skip(0) =~= all);
    while i < knowns.len()
        invariant
            i <= knowns@.len(),
            all == known_views(knowns@),
            known_for_source(all, source_id@) == known_for_source(all.skip(i as int), source_id@),
        decreases knowns@.len() - i,
    {
        assert(all.skip(i as int)[0] == knowns@[i as int]@);
        let matches = match &knowns[i].last_source_id {
            Some(last) => crate::text::same_text(last.as_str(), source_id),
            None => false,
        };
        if matches {
            return Some(i);
        }
        assert(all.skip(i as int).drop_first() =~= all.skip(i + 1));
        i = i + 1;
    }
    assert(all.skip(i as int).len() == 0);
    None
}

/// What the window input bridge's probe reports as the fallback control state.
fn map_control_state(capability: Option<ControlCapability>) -> (r: CapabilityState)
    ensures
        r@ == control_state_spec(capability, "fallback control unavailable"@),
{
    match capability {
        Some(capability) => if capability.supported {
            CapabilityState::Ready
        } else {
            CapabilityState::Blocked(
                match capability.reason {
                    Some(reason) => reason,
                    None => crate::text::owned("fallback control unavailable"),
                },
            )
        },
        None => CapabilityState::Unavailable,
    }
}

} // verus!
