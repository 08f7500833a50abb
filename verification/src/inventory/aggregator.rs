//! Merging provider observations into inventory rows.
use vstd::prelude::*;
use crate::inventory::model::{
    device_views, observation_views, opt_view, CapabilityState, CapabilityView, DeviceObservation,
    DeviceView, InventoryDevice, InventoryEvidenceSource, InventorySnapshot, ObservationView,
    Sessionability,
};
use crate::ordered::{
    insert_all, insert_sorted, insert_text_sorted, is_strict_order, lemma_insert_at, text_order,
    texts,
};

verus! {

/// Rank of a capability state: a merge keeps the higher one.
pub open spec fn score_view(state: CapabilityView) -> u8 {
    match state {
        CapabilityView::Ready => 3,
        CapabilityView::Discovered => 2,
        CapabilityView::Blocked(_) => 1,
        CapabilityView::Unavailable => 0,
    }
}

/// The state that a merge keeps: the incoming one only when it ranks higher.
pub open spec fn best_view(current: CapabilityView, incoming: CapabilityView) -> CapabilityView {
    if score_view(incoming) > score_view(current) {
        incoming
    } else {
        current
    }
}

/// Whether a device can be started, and by which control path.
pub open spec fn compose_spec(
    capture: CapabilityView,
    preferred: CapabilityView,
    fallback: CapabilityView,
    live: bool,
) -> Sessionability {
    if capture is Ready && preferred is Ready {
        Sessionability::StartableWithPreferredPath
    } else if capture is Ready && fallback is Ready {
        Sessionability::StartableWithFallback
    } else if live {
        Sessionability::NotStartable
    } else {
        Sessionability::Unknown
    }
}

/// Position of an evidence source in the order of `InventoryEvidenceSource`.
pub open spec fn source_rank(s: InventoryEvidenceSource) -> int {
    match s {
        InventoryEvidenceSource::Bluetooth => 0,
        InventoryEvidenceSource::Mirror => 1,
        InventoryEvidenceSource::Known => 2,
    }
}

/// The order of evidence sources, as a function value.
pub open spec fn source_order() -> spec_fn(InventoryEvidenceSource, InventoryEvidenceSource) -> bool {
    |a: InventoryEvidenceSource, b: InventoryEvidenceSource| source_rank(a) < source_rank(b)
}

/// Both ids are present and equal.
pub open spec fn both_same(a: Option<Seq<char>>, b: Option<Seq<char>>) -> bool {
    a is Some && b is Some && a->0 == b->0
}

/// An observation belongs to an existing row: the same stable id; or the same
/// known-device id while either side is live; or the same known-device id and
/// the same mirror source.
pub open spec fn should_merge_spec(device: DeviceView, observation: ObservationView) -> bool {
    ||| both_same(device.stable_id, observation.stable_id)
    ||| both_same(device.known_device_id, observation.known_device_id) && (device.live
        || observation.live)
    ||| both_same(device.known_device_id, observation.known_device_id) && both_same(
        device.mirror_source_id,
        observation.mirror_source_id,
    )
}

/// An id that is kept if present, else taken from the observation.
pub open spec fn keep_or(current: Option<Seq<char>>, incoming: Option<Seq<char>>) -> Option<
    Seq<char>,
> {
    if current is None {
        incoming
    } else {
        current
    }
}

/// A row after one more observation is merged into it.
pub open spec fn merge_spec(device: DeviceView, observation: ObservationView) -> DeviceView {
    DeviceView {
        inventory_id: device.inventory_id,
        display_name: if device.display_name.len() == 0 {
            observation.display_name
        } else {
            device.display_name
        },
        stable_id: keep_or(device.stable_id, observation.stable_id),
        known_device_id: keep_or(device.known_device_id, observation.known_device_id),
        mirror_source_id: keep_or(device.mirror_source_id, observation.mirror_source_id),
        live: device.live || observation.live,
        evidence_sources: insert_all(
            seq![],
            device.evidence_sources.push(observation.provider),
            source_order(),
        ),
        capture_state: best_view(device.capture_state, observation.capture_state),
        preferred_control_state: best_view(
            device.preferred_control_state,
            observation.preferred_control_state,
        ),
        fallback_control_state: best_view(
            device.fallback_control_state,
            observation.fallback_control_state,
        ),
        sessionability: device.sessionability,
        reasons: insert_all(insert_all(seq![], device.reasons, text_order()), observation.reasons, text_order()),
    }
}

/// The row id of a new device: its known-device id, else its stable id, else
/// its mirror source, else `inventory:` and its name.
pub open spec fn inventory_id_spec(observation: ObservationView) -> Seq<char> {
    match observation.known_device_id {
        Some(id) => id,
        None => match observation.stable_id {
            Some(id) => id,
            None => match observation.mirror_source_id {
                Some(id) => id,
                None => "inventory:"@ + observation.display_name,
            },
        },
    }
}

/// The row that a first observation of a device opens.
pub open spec fn device_from_spec(observation: ObservationView) -> DeviceView {
    DeviceView {
        inventory_id: inventory_id_spec(observation),
        display_name: observation.display_name,
        stable_id: observation.stable_id,
        known_device_id: observation.known_device_id,
        mirror_source_id: observation.mirror_source_id,
        live: observation.live,
        evidence_sources: seq![observation.provider],
        capture_state: observation.capture_state,
        preferred_control_state: observation.preferred_control_state,
        fallback_control_state: observation.fallback_control_state,
        sessionability: compose_spec(
            observation.capture_state,
            observation.preferred_control_state,
            observation.fallback_control_state,
            observation.live,
        ),
        reasons: observation.reasons,
    }
}

/// Index of the first row at or after `i` that the observation merges into,
/// or the number of rows when there is none.
pub open spec fn first_match(devices: Seq<DeviceView>, observation: ObservationView, i: int) -> int
    decreases devices.len() - i,
{
    if i < 0 || i >= devices.len() {
        devices.len() as int
    } else if should_merge_spec(devices[i], observation) {
        i
    } else {
        first_match(devices, observation, i + 1)
    }
}

/// The rows after one observation: merged into the first matching row, or
/// appended as a new row.
pub open spec fn absorb(devices: Seq<DeviceView>, observation: ObservationView) -> Seq<DeviceView> {
    let i = first_match(devices, observation, 0);
    if i < devices.len() {
        devices.update(i, merge_spec(devices[i], observation))
    } else {
        devices.push(device_from_spec(observation))
    }
}

/// The rows after every observation, first to last.
pub open spec fn absorb_all(observations: Seq<ObservationView>) -> Seq<DeviceView>
    decreases observations.len(),
{
    if observations.len() == 0 {
        seq![]
    } else {
        absorb(absorb_all(observations.drop_last()), observations.last())
    }
}

/// A row with its sessionability worked out from its merged states.
pub open spec fn settle(device: DeviceView) -> DeviceView {
    DeviceView {
        sessionability: compose_spec(
            device.capture_state,
            device.preferred_control_state,
            device.fallback_control_state,
            device.live,
        ),
        ..device
    }
}

/// The inventory that a list of observations yields.
pub open spec fn aggregate_spec(observations: Seq<ObservationView>) -> Seq<DeviceView> {
    absorb_all(observations).map_values(|d: DeviceView| settle(d))
}

/// Merges the observations of every provider into inventory rows.
pub fn aggregate_inventory(observations: Vec<DeviceObservation>) -> (snapshot: InventorySnapshot)
    ensures
        device_views(snapshot.devices@) == aggregate_spec(observation_views(observations@)),
{
    let ghost all = observation_views(observations@);
    let mut rest = observations;
    let mut devices: Vec<InventoryDevice> = Vec::new();
    let ghost mut k: int = 0;
    while rest.len() > 0
        invariant
            0 <= k <= all.len(),
            observation_views(rest@) == all.subrange(k, all.len() as int),
            device_views(devices@) == absorb_all(all.subrange(0, k)),
        decreases rest@.len(),
    {
        let ghost old_rest = rest@;
        let observation = rest.remove(0);
        proof {
            assert(observation_views(old_rest).len() == old_rest.len());
            assert(k < all.len());
            assert(all.subrange(k, all.len() as int)[0] == all[k]);
            assert(observation_views(old_rest)[0] == all.subrange(k, all.len() as int)[0]);
            assert(observation == old_rest[0]);
            assert(observation_views(old_rest)[0] == old_rest[0]@);
            assert(observation@ == all[k]);
            assert(observation_views(rest@) =~= observation_views(old_rest).subrange(
                1,
                old_rest.len() as int,
            ));
            assert(observation_views(rest@) =~= all.subrange(k + 1, all.len() as int));
            assert(all.subrange(0, k + 1).drop_last() =~= all.subrange(0, k));
            assert(all.subrange(0, k + 1).last() == all[k]);
        }
        let ghost before = device_views(devices@);
        let n = devices.len();
        let mut j: usize = 0;
        while j < n && !should_merge(&devices[j], &observation)
            invariant
                n == devices@.len(),
                j <= n,
                before == device_views(devices@),
                first_match(before, observation@, j as int) == first_match(
                    before,
                    observation@,
                    0,
                ),
            decreases n - j,
        {
            j = j + 1;
        }
        if j < n {
            let mut device = devices.remove(j);
            merge_observation(&mut device, observation);
            devices.insert(j, device);
            proof {
                assert(device_views(devices@) =~= before.update(
                    j as int,
                    merge_spec(before[j as int], all[k]),
                ));
            }
        } else {
            devices.push(device_from_observation(observation));
            proof {
                assert(device_views(devices@) =~= before.push(device_from_spec(all[k])));
            }
        }
        proof {
            k = k + 1;
        }
    }
    assert(all.subrange(0, k) =~= all);
    let ghost merged = device_views(devices@);
    let n = devices.len();
    let mut i: usize = 0;
    while i < n
        invariant
            n == devices@.len(),
            i <= n,
            merged.len() == n,
            forall|m: int| 0 <= m < i ==> #[trigger] device_views(devices@)[m] == settle(merged[m]),
            forall|m: int| i <= m < n ==> #[trigger] device_views(devices@)[m] == merged[m],
        decreases n - i,
    {
        let s = compose_sessionability(
            &devices[i].capture_state,
            &devices[i].preferred_control_state,
            &devices[i].fallback_control_state,
            devices[i].live,
        );
        let ghost old_devices = devices@;
        assert(device_views(old_devices)[i as int] == merged[i as int]);
        assert(old_devices[i as int]@ == merged[i as int]);
        devices[i].sessionability = s;
        proof {
            assert(devices@[i as int].sessionability == s);
            assert(devices@[i as int].capture_state == old_devices[i as int].capture_state);
            assert(devices@[i as int]@ == settle(merged[i as int]));
            assert forall|m: int| 0 <= m < n && m != i implies devices@[m] == old_devices[m] by {}
            assert(devices@.len() == n);
            assert forall|m: int| 0 <= m <= i implies #[trigger] device_views(devices@)[m] == settle(
                merged[m],
            ) by {
                if m < i {
                    assert(device_views(old_devices)[m] == settle(merged[m]));
                }
            }
            assert forall|m: int| i < m < n implies #[trigger] device_views(devices@)[m]
                == merged[m] by {
                assert(device_views(old_devices)[m] == merged[m]);
            }
        }
        i = i + 1;
    }
    assert(device_views(devices@) =~= merged.map_values(|d: DeviceView| settle(d)));
    InventorySnapshot { devices }
}

fn both_equal(a: &Option<String>, b: &Option<String>) -> (r: bool)
    ensures
        r == both_same(opt_view(*a), opt_view(*b)),
{
    match (a, b) {
        (Some(x), Some(y)) => *x == *y,
        _ => false,
    }
}

fn should_merge(device: &InventoryDevice, observation: &DeviceObservation) -> (r: bool)
    ensures
        r == should_merge_spec(device@, observation@),
{
    if both_equal(&device.stable_id, &observation.stable_id) {
        return true;
    }
    if both_equal(&device.known_device_id, &observation.known_device_id) && (device.live
        || observation.live) {
        return true;
    }
    if device.known_device_id.is_some() && observation.known_device_id.is_some()
        && device.mirror_source_id.is_some() && observation.mirror_source_id.is_some() {
        return both_equal(&device.known_device_id, &observation.known_device_id) && both_equal(
            &device.mirror_source_id,
            &observation.mirror_source_id,
        );
    }
    false
}

fn merge_observation(device: &mut InventoryDevice, observation: DeviceObservation)
    ensures
        final(device)@ == merge_spec(old(device)@, observation@),
{
    let DeviceObservation {
        provider,
        stable_id,
        known_device_id,
        display_name,
        mirror_source_id,
        live,
        capture_state,
        preferred_control_state,
        fallback_control_state,
        reasons,
    } = observation;
    if device.stable_id.is_none() {
        device.stable_id = stable_id;
    }
    if device.known_device_id.is_none() {
        device.known_device_id = known_device_id;
    }
    if device.mirror_source_id.is_none() {
        device.mirror_source_id = mirror_source_id;
    }
    if device.display_name.unicode_len() == 0 {
        device.display_name = display_name;
    }
    device.live = device.live || live;
    push_evidence_source(&mut device.evidence_sources, provider);
    device.capture_state = best_state(&device.capture_state, &capture_state).clone();
    device.preferred_control_state = best_state(
        &device.preferred_control_state,
        &preferred_control_state,
    ).clone();
    device.fallback_control_state = best_state(
        &device.fallback_control_state,
        &fallback_control_state,
    ).clone();
    merge_reasons(&mut device.reasons, &reasons);
}

fn device_from_observation(observation: DeviceObservation) -> (device: InventoryDevice)
    ensures
        device@ == device_from_spec(observation@),
{
    let inventory_id = match &observation.known_device_id {
        Some(id) => id.clone(),
        None => match &observation.stable_id {
            Some(id) => id.clone(),
            None => match &observation.mirror_source_id {
                Some(id) => id.clone(),
                None => crate::text::joined("inventory:", observation.display_name.as_str()),
            },
        },
    };
    let sessionability = compose_sessionability(
        &observation.capture_state,
        &observation.preferred_control_state,
        &observation.fallback_control_state,
        observation.live,
    );
    let mut evidence_sources = Vec::new();
    evidence_sources.push(observation.provider);
    InventoryDevice {
        inventory_id,
        display_name: observation.display_name,
        stable_id: observation.stable_id,
        known_device_id: observation.known_device_id,
        mirror_source_id: observation.mirror_source_id,
        live: observation.live,
        evidence_sources,
        capture_state: observation.capture_state,
        preferred_control_state: observation.preferred_control_state,
        fallback_control_state: observation.fallback_control_state,
        sessionability,
        reasons: observation.reasons,
    }
}

/// Whether a device can be started, and by which control path: capture and
/// the preferred control path ready, else capture and the fallback path ready;
/// otherwise not startable if the device is live, unknown if it is not.
pub fn compose_sessionability(
    capture_state: &CapabilityState,
    preferred_control_state: &CapabilityState,
    fallback_control_state: &CapabilityState,
    live: bool,
) -> (r: Sessionability)
    ensures
        r == compose_spec(capture_state@, preferred_control_state@, fallback_control_state@, live),
{
    if matches!(capture_state, CapabilityState::Ready) && matches!(
        preferred_control_state,
        CapabilityState::Ready
    ) {
        return Sessionability::StartableWithPreferredPath;
    }
    if matches!(capture_state, CapabilityState::Ready) && matches!(
        fallback_control_state,
        CapabilityState::Ready
    ) {
        return Sessionability::StartableWithFallback;
    }
    if live {
        Sessionability::NotStartable
    } else {
        Sessionability::Unknown
    }
}

fn best_state<'a>(current: &'a CapabilityState, incoming: &'a CapabilityState) -> (r:
    &'a CapabilityState)
    ensures
        r@ == best_view(current@, incoming@),
        r == current || r == incoming,
{
    if score_state(incoming) > score_state(current) {
        incoming
    } else {
        current
    }
}

fn score_state(state: &CapabilityState) -> (r: u8)
    ensures
        r == score_view(state@),
{
    match state {
        CapabilityState::Ready => 3,
        CapabilityState::Discovered => 2,
        CapabilityState::Blocked(_) => 1,
        CapabilityState::Unavailable => 0,
    }
}

proof fn lemma_source_order()
    ensures
        is_strict_order(source_order()),
{
    assert forall|a: InventoryEvidenceSource, b: InventoryEvidenceSource|
        a != b implies #[trigger] source_order()(a, b) || #[trigger] source_order()(b, a) by {
        assert(source_rank(a) != source_rank(b));
    }
}

fn source_less(a: InventoryEvidenceSource, b: InventoryEvidenceSource) -> (r: bool)
    ensures
        r == source_order()(a, b),
{
    let x: u8 = match a {
        InventoryEvidenceSource::Bluetooth => 0,
        InventoryEvidenceSource::Mirror => 1,
        InventoryEvidenceSource::Known => 2,
    };
    let y: u8 = match b {
        InventoryEvidenceSource::Bluetooth => 0,
        InventoryEvidenceSource::Mirror => 1,
        InventoryEvidenceSource::Known => 2,
    };
    x < y
}

fn insert_source_sorted(v: &mut Vec<InventoryEvidenceSource>, x: InventoryEvidenceSource)
    ensures
        final(v)@ == insert_sorted(old(v)@, x, source_order()),
{
    proof {
        lemma_source_order();
    }
    let ghost s = v@;
    let n = v.len();
    let mut j: usize = 0;
    while j < n && source_less(v[j], x)
        invariant
            n == v@.len(),
            j <= n,
            s == v@,
            forall|k: int| 0 <= k < j ==> #[trigger] source_order()(s[k], x),
        decreases n - j,
    {
        j = j + 1;
    }
    proof {
        lemma_insert_at(s, x, source_order(), j as int);
    }
    if j < n && v[j] == x {
        return;
    }
    v.insert(j, x);
}

/// Adds `source` to the sources, which come back in source order with no
/// repeats.
fn push_evidence_source(sources: &mut Vec<InventoryEvidenceSource>, source: InventoryEvidenceSource)
    ensures
        final(sources)@ == insert_all(seq![], old(sources)@.push(source), source_order()),
{
    let ghost all = sources@.push(source);
    let mut set: Vec<InventoryEvidenceSource> = Vec::new();
    let mut i: usize = 0;
    while i < sources.len()
        invariant
            i <= sources@.len(),
            all == sources@.push(source),
            set@ == insert_all(seq![], all.subrange(0, i as int), source_order()),
        decreases sources@.len() - i,
    {
        proof {
            assert(all.subrange(0, i + 1).drop_last() =~= all.subrange(0, i as int));
        }
        insert_source_sorted(&mut set, sources[i]);
        i = i + 1;
    }
    proof {
        assert(all.subrange(0, i + 1).drop_last() =~= all.subrange(0, i as int));
        assert(all.subrange(0, i + 1) =~= all);
    }
    insert_source_sorted(&mut set, source);
    *sources = set;
}

/// The union of both lists of reasons, in string order with no repeats.
fn merge_reasons(existing: &mut Vec<String>, incoming: &Vec<String>)
    ensures
        texts(final(existing)@) == insert_all(
            insert_all(seq![], texts(old(existing)@), text_order()),
            texts(incoming@),
            text_order(),
        ),
{
    let ghost first = texts(existing@);
    let ghost second = texts(incoming@);
    let mut set: Vec<String> = Vec::new();
    let mut i: usize = 0;
    while i < existing.len()
        invariant
            i <= existing@.len(),
            first == texts(existing@),
            texts(set@) == insert_all(seq![], first.subrange(0, i as int), text_order()),
        decreases existing@.len() - i,
    {
        proof {
            assert(first.subrange(0, i + 1).drop_last() =~= first.subrange(0, i as int));
        }
        insert_text_sorted(&mut set, existing[i].clone());
        i = i + 1;
    }
    assert(first.subrange(0, i as int) =~= first);
    let ghost base = texts(set@);
    let mut j: usize = 0;
    while j < incoming.len()
        invariant
            j <= incoming@.len(),
            second == texts(incoming@),
            base == insert_all(seq![], first, text_order()),
            texts(set@) == insert_all(base, second.subrange(0, j as int), text_order()),
        decreases incoming@.len() - j,
    {
        proof {
            assert(second.subrange(0, j + 1).drop_last() =~= second.subrange(0, j as int));
        }
        insert_text_sorted(&mut set, incoming[j].clone());
        j = j + 1;
    }
    assert(second.subrange(0, j as int) =~= second);
    *existing = set;
}

} // verus!
