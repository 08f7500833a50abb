//! What holds of every inventory that the aggregation builds.
use vstd::prelude::*;
use crate::inventory::aggregator::{
    absorb, absorb_all, aggregate_spec, compose_spec, device_from_spec, first_match, merge_spec,
    settle, should_merge_spec, source_order, source_rank,
};
use crate::inventory::model::{
    CapabilityView, DeviceView, InventoryEvidenceSource, ObservationView, Sessionability,
};
use crate::inventory::providers::bluetooth::{bluetooth_observations_spec, control_state_spec, RecordView};
use crate::inventory::providers::mirror::mirror_observations_spec;
use crate::preferences::KnownDeviceView;
use crate::protocol::{CaptureCapability, ControlCapability, SourceView};
use crate::ordered::{
    insert_all, is_strict_order, lemma_insert_all, lemma_text_order, strictly_sorted, text_order,
};

verus! {

broadcast use vstd::seq_lib::group_seq_properties;

proof fn lemma_first_match_range(devices: Seq<DeviceView>, observation: ObservationView, i: int)
    requires
        0 <= i,
    ensures
        i <= first_match(devices, observation, i) <= devices.len() || first_match(
            devices,
            observation,
            i,
        ) == devices.len(),
        first_match(devices, observation, i) < devices.len() ==> should_merge_spec(
            devices[first_match(devices, observation, i)],
            observation,
        ),
    decreases devices.len() - i,
{
    if i < devices.len() && !should_merge_spec(devices[i], observation) {
        lemma_first_match_range(devices, observation, i + 1);
    }
}

proof fn lemma_first_match_none(devices: Seq<DeviceView>, observation: ObservationView, i: int)
    requires
        0 <= i,
        forall|m: int| i <= m < devices.len() ==> !#[trigger] should_merge_spec(devices[m], observation),
    ensures
        first_match(devices, observation, i) == devices.len(),
    decreases devices.len() - i,
{
    if i < devices.len() {
        lemma_first_match_none(devices, observation, i + 1);
    }
}

proof fn lemma_absorb_len(devices: Seq<DeviceView>, observation: ObservationView)
    ensures
        absorb(devices, observation).len() == devices.len() || absorb(devices, observation).len()
            == devices.len() + 1,
        absorb(devices, observation).len() >= 1,
{
    lemma_first_match_range(devices, observation, 0);
}

proof fn lemma_absorb_all_len(observations: Seq<ObservationView>)
    ensures
        absorb_all(observations).len() <= observations.len(),
        observations.len() > 0 ==> absorb_all(observations).len() > 0,
    decreases observations.len(),
{
    if observations.len() > 0 {
        lemma_absorb_all_len(observations.drop_last());
        lemma_absorb_len(absorb_all(observations.drop_last()), observations.last());
    }
}

/// An inventory has no more rows than there were observations, and at least
/// one row when there was at least one observation.
pub proof fn lemma_row_count(observations: Seq<ObservationView>)
    ensures
        aggregate_spec(observations).len() <= observations.len(),
        observations.len() > 0 ==> aggregate_spec(observations).len() > 0,
{
    lemma_absorb_all_len(observations);
}

/// Every row's sessionability follows from its merged states: startable only
/// when capture is ready together with a control path; otherwise not
/// startable for a live device and unknown for a device known only from
/// history.
pub proof fn lemma_sessionability_follows_states(observations: Seq<ObservationView>)
    ensures
        forall|i: int|
            0 <= i < aggregate_spec(observations).len() ==> {
                let row = #[trigger] aggregate_spec(observations)[i];
                &&& row.sessionability == compose_spec(
                    row.capture_state,
                    row.preferred_control_state,
                    row.fallback_control_state,
                    row.live,
                )
                &&& row.sessionability == Sessionability::NotStartable ==> row.live
                &&& row.sessionability == Sessionability::Unknown ==> !row.live
                &&& (row.sessionability == Sessionability::StartableWithPreferredPath
                    || row.sessionability == Sessionability::StartableWithFallback)
                    ==> row.capture_state is Ready
            },
{
}

/// An observation with neither a stable id nor a known-device id never merges
/// with another: where no observation carries one, every observation is its
/// own row.
pub proof fn lemma_unidentified_observations_stay_separate(observations: Seq<ObservationView>)
    requires
        forall|k: int|
            0 <= k < observations.len() ==> (#[trigger] observations[k]).stable_id is None
                && observations[k].known_device_id is None,
    ensures
        aggregate_spec(observations).len() == observations.len(),
    decreases observations.len(),
{
    if observations.len() > 0 {
        let rest = observations.drop_last();
        assert forall|k: int| 0 <= k < rest.len() implies (#[trigger] rest[k]).stable_id is None
            && rest[k].known_device_id is None by {
            assert(rest[k] == observations[k]);
        }
        lemma_unidentified_observations_stay_separate(rest);
        let o = observations.last();
        assert(o == observations[observations.len() - 1]);
        lemma_first_match_none(absorb_all(rest), o, 0);
    }
}

/// Evidence sources of a row are in source order with no repeats.
pub open spec fn sources_in_order(row: DeviceView) -> bool {
    row.evidence_sources.len() > 0 && strictly_sorted(row.evidence_sources, source_order())
}

proof fn lemma_source_order_strict()
    ensures
        is_strict_order(source_order()),
{
    assert forall|a: InventoryEvidenceSource, b: InventoryEvidenceSource|
        a != b implies #[trigger] source_order()(a, b) || #[trigger] source_order()(b, a) by {
        assert(source_rank(a) != source_rank(b));
    }
}

proof fn lemma_merged_sources(devices: DeviceView, observation: ObservationView)
    ensures
        sources_in_order(merge_spec(devices, observation)),
        merge_spec(devices, observation).evidence_sources.to_set() == devices.evidence_sources.to_set().insert(
            observation.provider,
        ),
{
    lemma_source_order_strict();
    let xs = devices.evidence_sources.push(observation.provider);
    lemma_insert_all(seq![], xs, source_order());
    let r = insert_all(seq![], xs, source_order());
    assert(seq![].to_set().union(xs.to_set()) =~= xs.to_set());
    assert(xs.to_set() =~= devices.evidence_sources.to_set().insert(observation.provider));
    assert(r.to_set().contains(observation.provider));
    assert(r.len() > 0);
}

proof fn lemma_absorb_all_sources(observations: Seq<ObservationView>)
    ensures
        forall|i: int|
            0 <= i < absorb_all(observations).len() ==> sources_in_order(
                #[trigger] absorb_all(observations)[i],
            ),
        forall|k: int|
            0 <= k < observations.len() ==> exists|i: int|
                0 <= i < absorb_all(observations).len()
                    && #[trigger] absorb_all(observations)[i].evidence_sources.contains(
                    (#[trigger] observations[k]).provider,
                ),
    decreases observations.len(),
{
    if observations.len() > 0 {
        let rest = observations.drop_last();
        let o = observations.last();
        lemma_absorb_all_sources(rest);
        let before = absorb_all(rest);
        let after = absorb_all(observations);
        assert(after == absorb(before, o));
        lemma_first_match_range(before, o, 0);
        let j = first_match(before, o, 0);
        if j < before.len() {
            lemma_merged_sources(before[j], o);
            assert(after == before.update(j, merge_spec(before[j], o)));
            assert forall|i: int| 0 <= i < after.len() implies sources_in_order(
                #[trigger] after[i],
            ) by {
                if i != j {
                    assert(after[i] == before[i]);
                }
            }
            assert forall|k: int| 0 <= k < observations.len() implies exists|i: int|
                0 <= i < after.len() && #[trigger] after[i].evidence_sources.contains(
                    (#[trigger] observations[k]).provider,
                ) by {
                if k == observations.len() - 1 {
                    assert(after[j].evidence_sources.to_set().contains(o.provider));
                    assert(after[j].evidence_sources.contains(o.provider));
                } else {
                    assert(rest[k] == observations[k]);
                    let i = choose|i: int|
                        0 <= i < before.len() && #[trigger] before[i].evidence_sources.contains(
                            rest[k].provider,
                        );
                    if i == j {
                        assert(before[j].evidence_sources.to_set().contains(rest[k].provider));
                        assert(after[j].evidence_sources.to_set().contains(rest[k].provider));
                        assert(after[j].evidence_sources.contains(rest[k].provider));
                    } else {
                        assert(after[i] == before[i]);
                    }
                }
            }
        } else {
            assert(after == before.push(device_from_spec(o)));
            let fresh = device_from_spec(o);
            assert(sources_in_order(fresh));
            assert forall|i: int| 0 <= i < after.len() implies sources_in_order(
                #[trigger] after[i],
            ) by {
                if i < before.len() {
                    assert(after[i] == before[i]);
                }
            }
            assert forall|k: int| 0 <= k < observations.len() implies exists|i: int|
                0 <= i < after.len() && #[trigger] after[i].evidence_sources.contains(
                    (#[trigger] observations[k]).provider,
                ) by {
                if k == observations.len() - 1 {
                    assert(after[before.len() as int].evidence_sources[0] == o.provider);
                    assert(after[before.len() as int].evidence_sources.contains(o.provider));
                } else {
                    assert(rest[k] == observations[k]);
                    let i = choose|i: int|
                        0 <= i < before.len() && #[trigger] before[i].evidence_sources.contains(
                            rest[k].provider,
                        );
                    assert(after[i] == before[i]);
                }
            }
        }
    }
}

/// Every row lists its evidence sources in source order with no repeats, and
/// every observation's provider is listed by some row.
pub proof fn lemma_evidence_sources(observations: Seq<ObservationView>)
    ensures
        forall|i: int|
            0 <= i < aggregate_spec(observations).len() ==> sources_in_order(
                #[trigger] aggregate_spec(observations)[i],
            ),
        forall|k: int|
            0 <= k < observations.len() ==> exists|i: int|
                0 <= i < aggregate_spec(observations).len()
                    && #[trigger] aggregate_spec(observations)[i].evidence_sources.contains(
                    (#[trigger] observations[k]).provider,
                ),
{
    lemma_absorb_all_sources(observations);
    let rows = absorb_all(observations);
    assert forall|i: int| 0 <= i < aggregate_spec(observations).len() implies sources_in_order(
        #[trigger] aggregate_spec(observations)[i],
    ) by {
        assert(aggregate_spec(observations)[i] == settle(rows[i]));
    }
    assert forall|k: int| 0 <= k < observations.len() implies exists|i: int|
        0 <= i < aggregate_spec(observations).len()
            && #[trigger] aggregate_spec(observations)[i].evidence_sources.contains(
            (#[trigger] observations[k]).provider,
        ) by {
        let i = choose|i: int|
            0 <= i < rows.len() && #[trigger] rows[i].evidence_sources.contains(
                observations[k].provider,
            );
        assert(aggregate_spec(observations)[i] == settle(rows[i]));
    }
}

/// A merge keeps every reason of the row and of the observation, once each,
/// in string order.
pub proof fn lemma_merge_reasons(row: DeviceView, observation: ObservationView)
    ensures
        strictly_sorted(merge_spec(row, observation).reasons, text_order()),
        merge_spec(row, observation).reasons.to_set() == row.reasons.to_set().union(
            observation.reasons.to_set(),
        ),
{
    lemma_text_order();
    lemma_insert_all(seq![], row.reasons, text_order());
    let base = insert_all(seq![], row.reasons, text_order());
    lemma_insert_all(base, observation.reasons, text_order());
    assert(seq![].to_set().union(row.reasons.to_set()) =~= row.reasons.to_set());
}

/// Two observations that carry the same stable id end in one row, which is
/// live if either was and lists both providers.
pub proof fn lemma_shared_stable_id_merges(first: ObservationView, second: ObservationView)
    requires
        first.stable_id is Some,
        second.stable_id == first.stable_id,
    ensures
        aggregate_spec(seq![first, second]).len() == 1,
        aggregate_spec(seq![first, second])[0].live == (first.live || second.live),
        aggregate_spec(seq![first, second])[0].evidence_sources.contains(first.provider),
        aggregate_spec(seq![first, second])[0].evidence_sources.contains(second.provider),
{
    let obs = seq![first, second];
    assert(obs.drop_last() =~= seq![first]);
    assert(seq![first].drop_last() =~= Seq::<ObservationView>::empty());
    let one = absorb_all(seq![first]);
    let none = Seq::<DeviceView>::empty();
    assert(absorb_all(Seq::<ObservationView>::empty()) == none);
    assert(first_match(none, first, 0) == 0);
    assert(one == absorb(none, first));
    assert(one =~= seq![device_from_spec(first)]);
    assert(should_merge_spec(one[0], second));
    assert(first_match(one, second, 0) == 0);
    lemma_merged_sources(one[0], second);
    let row = merge_spec(one[0], second);
    assert(absorb_all(obs) == seq![row]);
    assert(one[0].evidence_sources.contains(first.provider)) by {
        assert(one[0].evidence_sources[0] == first.provider);
    }
    assert(row.evidence_sources.to_set().contains(first.provider));
    assert(row.evidence_sources.to_set().contains(second.provider));
    assert(aggregate_spec(obs)[0] == settle(row));
}

/// The row holds what one observation brought: its provider among the
/// evidence sources, its liveness, and every one of its reasons.
pub open spec fn covers(row: DeviceView, observation: ObservationView) -> bool {
    &&& row.evidence_sources.contains(observation.provider)
    &&& (observation.live ==> row.live)
    &&& forall|r: Seq<char>| observation.reasons.contains(r) ==> #[trigger] row.reasons.contains(r)
}

proof fn lemma_merge_covers(row: DeviceView, observation: ObservationView, earlier: ObservationView)
    ensures
        covers(merge_spec(row, observation), observation),
        covers(row, earlier) ==> covers(merge_spec(row, observation), earlier),
{
    lemma_merged_sources(row, observation);
    lemma_merge_reasons(row, observation);
    let m = merge_spec(row, observation);
    assert(m.evidence_sources.to_set().contains(observation.provider));
    assert forall|r: Seq<char>| observation.reasons.contains(r) implies #[trigger] m.reasons.contains(r) by {
        assert(observation.reasons.to_set().contains(r));
        assert(m.reasons.to_set().contains(r));
    }
    if covers(row, earlier) {
        assert(row.evidence_sources.to_set().contains(earlier.provider));
        assert(m.evidence_sources.to_set().contains(earlier.provider));
        assert forall|r: Seq<char>| earlier.reasons.contains(r) implies #[trigger] m.reasons.contains(r) by {
            assert(row.reasons.contains(r));
            assert(row.reasons.to_set().contains(r));
            assert(m.reasons.to_set().contains(r));
        }
    }
}

proof fn lemma_absorb_all_covers(observations: Seq<ObservationView>)
    ensures
        forall|k: int|
            0 <= k < observations.len() ==> exists|i: int|
                0 <= i < absorb_all(observations).len() && covers(
                    #[trigger] absorb_all(observations)[i],
                    #[trigger] observations[k],
                ),
    decreases observations.len(),
{
    if observations.len() > 0 {
        let rest = observations.drop_last();
        let o = observations.last();
        lemma_absorb_all_covers(rest);
        let before = absorb_all(rest);
        let after = absorb_all(observations);
        assert(after == absorb(before, o));
        lemma_first_match_range(before, o, 0);
        let j = first_match(before, o, 0);
        assert forall|k: int| 0 <= k < observations.len() implies exists|i: int|
            0 <= i < after.len() && covers(#[trigger] after[i], #[trigger] observations[k]) by {
            if j < before.len() {
                assert(after == before.update(j, merge_spec(before[j], o)));
                if k == observations.len() - 1 {
                    lemma_merge_covers(before[j], o, o);
                    assert(covers(after[j], observations[k]));
                } else {
                    assert(rest[k] == observations[k]);
                    let i = choose|i: int| 0 <= i < before.len() && covers(#[trigger] before[i], rest[k]);
                    if i == j {
                        lemma_merge_covers(before[j], o, rest[k]);
                        assert(covers(after[j], observations[k]));
                    } else {
                        assert(after[i] == before[i]);
                        assert(covers(after[i], observations[k]));
                    }
                }
            } else {
                assert(after == before.push(device_from_spec(o)));
                if k == observations.len() - 1 {
                    let n = before.len() as int;
                    assert(after[n] == device_from_spec(o));
                    assert(after[n].evidence_sources[0] == o.provider);
                    assert(covers(after[n], observations[k]));
                } else {
                    assert(rest[k] == observations[k]);
                    let i = choose|i: int| 0 <= i < before.len() && covers(#[trigger] before[i], rest[k]);
                    assert(after[i] == before[i]);
                    assert(covers(after[i], observations[k]));
                }
            }
        }
    }
}

/// Every observation ends up in one row that holds all it brought: the row
/// lists its provider, is live if the observation was, and keeps every one of
/// its reasons.
pub proof fn law_every_observation_lands_in_one_row(observations: Seq<ObservationView>)
    ensures
        forall|k: int|
            0 <= k < observations.len() ==> exists|i: int|
                0 <= i < aggregate_spec(observations).len() && covers(
                    #[trigger] aggregate_spec(observations)[i],
                    #[trigger] observations[k],
                ),
{
    lemma_absorb_all_covers(observations);
    let rows = absorb_all(observations);
    assert forall|k: int| 0 <= k < observations.len() implies exists|i: int|
        0 <= i < aggregate_spec(observations).len() && covers(
            #[trigger] aggregate_spec(observations)[i],
            #[trigger] observations[k],
        ) by {
        let i = choose|i: int| 0 <= i < rows.len() && covers(#[trigger] rows[i], observations[k]);
        assert(aggregate_spec(observations)[i] == settle(rows[i]));
        assert(covers(aggregate_spec(observations)[i], observations[k]));
    }
}

/// Which path a device starts on: with capture ready, the preferred (BLE)
/// control path whenever it is ready, whatever the fallback; the fallback
/// only when the preferred path is not ready; without capture, or without a
/// ready control path, the device cannot start (not startable when it is live,
/// unknown when it is known only from history).
pub proof fn law_preferred_control_path_wins(
    capture: CapabilityView,
    preferred: CapabilityView,
    fallback: CapabilityView,
    live: bool,
)
    ensures
        capture is Ready && preferred is Ready ==> compose_spec(capture, preferred, fallback, live)
            == Sessionability::StartableWithPreferredPath,
        compose_spec(capture, preferred, fallback, live) == Sessionability::StartableWithPreferredPath
            ==> capture is Ready && preferred is Ready,
        compose_spec(capture, preferred, fallback, live) == Sessionability::StartableWithFallback <==> (
        capture is Ready && !(preferred is Ready) && fallback is Ready),
        !(capture is Ready && (preferred is Ready || fallback is Ready)) ==> compose_spec(
            capture,
            preferred,
            fallback,
            live,
        ) == if live {
            Sessionability::NotStartable
        } else {
            Sessionability::Unknown
        },
{
}

/// Every row of an inventory starts on its preferred path when capture and
/// that path are ready, and on the fallback only when the preferred path is
/// not ready.
pub proof fn law_rows_start_on_the_preferred_path(observations: Seq<ObservationView>)
    ensures
        forall|i: int|
            0 <= i < aggregate_spec(observations).len() ==> {
                let row = #[trigger] aggregate_spec(observations)[i];
                &&& (row.capture_state is Ready && row.preferred_control_state is Ready
                    ==> row.sessionability == Sessionability::StartableWithPreferredPath)
                &&& (row.sessionability == Sessionability::StartableWithFallback <==> (row.capture_state is Ready
                    && !(row.preferred_control_state is Ready) && row.fallback_control_state is Ready))
            },
{
    lemma_sessionability_follows_states(observations);
    assert forall|i: int| 0 <= i < aggregate_spec(observations).len() implies {
        let row = #[trigger] aggregate_spec(observations)[i];
        &&& (row.capture_state is Ready && row.preferred_control_state is Ready
            ==> row.sessionability == Sessionability::StartableWithPreferredPath)
        &&& (row.sessionability == Sessionability::StartableWithFallback <==> (row.capture_state is Ready
            && !(row.preferred_control_state is Ready) && row.fallback_control_state is Ready))
    } by {
        let row = aggregate_spec(observations)[i];
        law_preferred_control_path_wins(
            row.capture_state,
            row.preferred_control_state,
            row.fallback_control_state,
            row.live,
        );
    }
}

/// A control probe decides the control state it reports: ready when it says
/// control is supported, blocked with its reason (or `default`) when it says
/// not, unavailable when there was no probe.
pub proof fn law_probe_decides_control_state(capability: Option<ControlCapability>, default: Seq<char>)
    ensures
        capability matches Some(c) && c.supported ==> control_state_spec(capability, default) == CapabilityView::Ready,
        capability matches Some(c) && !c.supported ==> control_state_spec(capability, default)
            == CapabilityView::Blocked(
            match capability->0.reason {
                Some(r) => r@,
                None => default,
            },
        ),
        capability is None ==> control_state_spec(capability, default) == CapabilityView::Unavailable,
{
}

/// Every Bluetooth phone carries the BLE probe's answer as its preferred
/// control state: ready when BLE control is supported; and no Bluetooth phone
/// has capture or a fallback path of its own.
pub proof fn law_bluetooth_phones_carry_the_ble_probe(
    records: Option<Seq<RecordView>>,
    ble_control: Option<ControlCapability>,
    knowns: Seq<KnownDeviceView>,
)
    ensures
        forall|i: int|
            0 <= i < bluetooth_observations_spec(records, ble_control, knowns).len() ==> {
                let o = #[trigger] bluetooth_observations_spec(records, ble_control, knowns)[i];
                &&& (ble_control matches Some(c) && c.supported ==> o.preferred_control_state == CapabilityView::Ready)
                &&& (ble_control is None ==> o.preferred_control_state == CapabilityView::Unavailable)
                &&& o.capture_state == CapabilityView::Unavailable
                &&& o.fallback_control_state == CapabilityView::Unavailable
                &&& o.provider == InventoryEvidenceSource::Bluetooth
                &&& o.live
            },
{
    law_probe_decides_control_state(ble_control, "preferred control unavailable"@);
}

/// Every mirror window carries the window input bridge's probe as its fallback
/// control state, ready when the bridge is supported, with capture ready.
pub proof fn law_mirror_windows_carry_the_bridge_probe(
    capture_capability: Option<CaptureCapability>,
    sources: Option<Seq<SourceView>>,
    fallback_control: Option<ControlCapability>,
    knowns: Seq<KnownDeviceView>,
)
    ensures
        forall|i: int|
            0 <= i < mirror_observations_spec(capture_capability, sources, fallback_control, knowns).len() ==> {
                let o = #[trigger] mirror_observations_spec(capture_capability, sources, fallback_control, knowns)[i];
                &&& (fallback_control matches Some(c) && c.supported ==> o.fallback_control_state == CapabilityView::Ready)
                &&& (fallback_control is None ==> o.fallback_control_state == CapabilityView::Unavailable)
                &&& o.capture_state == CapabilityView::Ready
                &&& o.preferred_control_state == CapabilityView::Unavailable
                &&& o.provider == InventoryEvidenceSource::Mirror
            },
{
    law_probe_decides_control_state(fallback_control, "fallback control unavailable"@);
}

} // verus!
