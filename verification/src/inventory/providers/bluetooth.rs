//! Devices paired over Bluetooth. Windows reports one record per Bluetooth
//! service of a phone; the records of one phone are collapsed into one device.
use vstd::prelude::*;
use vstd::utf8::encode_utf8;
use crate::inventory::model::{
    observation_views, opt_view, CapabilityState, CapabilityView, DeviceObservation,
    InventoryEvidenceSource, ObservationView,
};
use crate::ordered::{insert_all, insert_text_sorted, text_order, texts};
use crate::preferences::{known_views, HostPreferences, KnownDevicePreference, KnownDeviceView};
use crate::protocol::ControlCapability;
use crate::text::{
    drop_space_before, has_suffix, lex_lt, trim_end_spec, trim_spec,
};

verus! {

/// One Bluetooth record as Windows reports it.
#[derive(Debug, PartialEq, Eq)]
pub struct BluetoothDeviceRecord {
    pub stable_id: String,
    pub display_name: String,
    pub container_id: Option<String>,
}

/// One phone: the records that share a container.
#[derive(Debug, PartialEq, Eq)]
pub struct LogicalBluetoothDevice {
    pub stable_id: String,
    pub display_name: String,
    pub raw_stable_ids: Vec<String>,
}

/// The characters of a [`BluetoothDeviceRecord`].
pub struct RecordView {
    pub stable_id: Seq<char>,
    pub display_name: Seq<char>,
    pub container_id: Option<Seq<char>>,
}

/// The characters of a [`LogicalBluetoothDevice`].
pub struct LogicalView {
    pub stable_id: Seq<char>,
    pub display_name: Seq<char>,
    pub raw_stable_ids: Seq<Seq<char>>,
}

impl View for BluetoothDeviceRecord {
    type V = RecordView;

    open spec fn view(&self) -> RecordView {
        RecordView {
            stable_id: self.stable_id@,
            display_name: self.display_name@,
            container_id: opt_view(self.container_id),
        }
    }
}

impl View for LogicalBluetoothDevice {
    type V = LogicalView;

    open spec fn view(&self) -> LogicalView {
        LogicalView {
            stable_id: self.stable_id@,
            display_name: self.display_name@,
            raw_stable_ids: texts(self.raw_stable_ids@),
        }
    }
}

/// The views of a sequence of records.
pub open spec fn record_views(s: Seq<BluetoothDeviceRecord>) -> Seq<RecordView> {
    s.map_values(|r: BluetoothDeviceRecord| r@)
}

/// The views of a sequence of collapsed devices.
pub open spec fn logical_views(s: Seq<LogicalBluetoothDevice>) -> Seq<LogicalView> {
    s.map_values(|d: LogicalBluetoothDevice| d@)
}

/// The phone a record belongs to: its trimmed container id when that is not
/// empty, else its own stable id.
pub open spec fn record_key(r: RecordView) -> Seq<char> {
    match r.container_id {
        Some(c) => if trim_spec(c).len() > 0 {
            trim_spec(c)
        } else {
            r.stable_id
        },
        None => r.stable_id,
    }
}

/// The records of one phone, in report order.
pub open spec fn group_of(records: Seq<RecordView>, key: Seq<char>) -> Seq<RecordView>
    decreases records.len(),
{
    if records.len() == 0 {
        seq![]
    } else {
        let g = group_of(records.drop_last(), key);
        if record_key(records.last()) == key {
            g.push(records.last())
        } else {
            g
        }
    }
}

/// The phones of the records, in string order of their keys.
pub open spec fn group_keys(records: Seq<RecordView>) -> Seq<Seq<char>> {
    insert_all(seq![], records.map_values(|r: RecordView| record_key(r)), text_order())
}

/// A name with a Bluetooth service suffix (` AVRCP Transport`,
/// ` Hands-Free AG Audio`, ` Headset`, ` Stereo`) cut off, and the white space
/// before it.
pub open spec fn strip_aux_spec(name: Seq<char>) -> Seq<char> {
    if has_suffix(name, " AVRCP Transport"@) {
        trim_end_spec(name.subrange(0, name.len() - " AVRCP Transport"@.len()))
    } else if has_suffix(name, " Hands-Free AG Audio"@) {
        trim_end_spec(name.subrange(0, name.len() - " Hands-Free AG Audio"@.len()))
    } else if has_suffix(name, " Headset"@) {
        trim_end_spec(name.subrange(0, name.len() - " Headset"@.len()))
    } else if has_suffix(name, " Stereo"@) {
        trim_end_spec(name.subrange(0, name.len() - " Stereo"@.len()))
    } else {
        name
    }
}

/// UTF-8 length of a text, as `str::len` gives it.
pub open spec fn byte_len(s: Seq<char>) -> usize {
    encode_utf8(s).len() as usize
}

/// `a` is a better display name than `b`: a name that needed no suffix cut
/// first, then the shorter cleaned name in bytes, then the smaller in string
/// order.
pub open spec fn name_before(a: Seq<char>, b: Seq<char>) -> bool {
    let ca = strip_aux_spec(a);
    let cb = strip_aux_spec(b);
    let fa = ca != a;
    let fb = cb != b;
    ||| !fa && fb
    ||| fa == fb && byte_len(ca) < byte_len(cb)
    ||| fa == fb && byte_len(ca) == byte_len(cb) && lex_lt(ca, cb)
}

/// Index of the first best name.
pub open spec fn best_name_index(names: Seq<Seq<char>>) -> int
    decreases names.len(),
{
    if names.len() <= 1 {
        0
    } else {
        let b = best_name_index(names.drop_last());
        if name_before(names.last(), names[b]) {
            names.len() - 1
        } else {
            b
        }
    }
}

/// The display name of a phone: its best name with the service suffix cut
/// off; empty when there is no name.
pub open spec fn choose_name_spec(names: Seq<Seq<char>>) -> Seq<char> {
    if names.len() == 0 {
        seq![]
    } else {
        strip_aux_spec(names[best_name_index(names)])
    }
}

/// The device that the records of one phone collapse into.
pub open spec fn logical_spec(records: Seq<RecordView>, key: Seq<char>) -> LogicalView {
    let g = group_of(records, key);
    LogicalView {
        stable_id: key,
        display_name: choose_name_spec(g.map_values(|r: RecordView| r.display_name)),
        raw_stable_ids: g.map_values(|r: RecordView| r.stable_id),
    }
}

/// One device per phone, in string order of the phones' keys.
pub open spec fn collapse_spec(records: Seq<RecordView>) -> Seq<LogicalView> {
    group_keys(records).map_values(|k: Seq<char>| logical_spec(records, k))
}

/// A known device matches a phone by its stable id: the phone's key or the
/// stable id of one of its records.
pub open spec fn known_matches_spec(known: KnownDeviceView, device: LogicalView) -> bool {
    match known.stable_id {
        Some(id) => id == device.stable_id || device.raw_stable_ids.contains(id),
        None => false,
    }
}

/// The id of the first known device that matches the phone.
pub open spec fn first_known(knowns: Seq<KnownDeviceView>, device: LogicalView) -> Option<Seq<char>>
    decreases knowns.len(),
{
    if knowns.len() == 0 {
        None
    } else if known_matches_spec(knowns[0], device) {
        Some(knowns[0].known_device_id)
    } else {
        first_known(knowns.drop_first(), device)
    }
}

/// What a control probe reports as a capability state; `default` is the
/// blocking reason when the probe gives none.
pub open spec fn control_state_spec(capability: Option<ControlCapability>, default: Seq<char>) -> CapabilityView {
    match capability {
        Some(c) => if c.supported {
            CapabilityView::Ready
        } else {
            CapabilityView::Blocked(
                match c.reason {
                    Some(r) => r@,
                    None => default,
                },
            )
        },
        None => CapabilityView::Unavailable,
    }
}

/// The observation of one paired phone.
pub open spec fn bluetooth_observation_spec(
    device: LogicalView,
    preferred: CapabilityView,
    knowns: Seq<KnownDeviceView>,
) -> ObservationView {
    ObservationView {
        provider: InventoryEvidenceSource::Bluetooth,
        stable_id: Some(device.stable_id),
        known_device_id: first_known(knowns, device),
        display_name: device.display_name,
        mirror_source_id: None,
        live: true,
        capture_state: CapabilityView::Unavailable,
        preferred_control_state: preferred,
        fallback_control_state: CapabilityView::Unavailable,
        reasons: seq!["paired over bluetooth"@],
    }
}

/// The observations that the Bluetooth records give (none without records).
pub open spec fn bluetooth_observations_spec(
    records: Option<Seq<RecordView>>,
    ble_control: Option<ControlCapability>,
    knowns: Seq<KnownDeviceView>,
) -> Seq<ObservationView> {
    match records {
        Some(rs) => collapse_spec(rs).map_values(
            |d: LogicalView|
                bluetooth_observation_spec(
                    d,
                    control_state_spec(ble_control, "preferred control unavailable"@),
                    knowns,
                ),
        ),
        None => seq![],
    }
}

/// The views of optional records.
pub open spec fn opt_record_views(records: Option<Vec<BluetoothDeviceRecord>>) -> Option<Seq<RecordView>> {
    match records {
        Some(rs) => Some(record_views(rs@)),
        None => None,
    }
}

/// One live observation per paired phone, with the BLE control probe's state
/// as its preferred control path; none when no records could be read.
pub fn discover_bluetooth_devices(
    records: Option<Vec<BluetoothDeviceRecord>>,
    ble_control: Option<ControlCapability>,
    preferences: &HostPreferences,
) -> (r: Vec<DeviceObservation>)
    ensures
        observation_views(r@) == bluetooth_observations_spec(
            opt_record_views(records),
            ble_control,
            known_views(preferences.known_devices@),
        ),
{
    let records = match records {
        Some(records) => records,
        None => {
            let r: Vec<DeviceObservation> = Vec::new();
            assert(observation_views(r@) =~= seq![]);
            return r;
        },
    };
    let devices = collapse_windows_records(records);
    let preferred_control_state = map_control_state(ble_control);
    let ghost preferred = preferred_control_state@;
    let ghost knowns = known_views(preferences.known_devices@);
    let ghost goal = logical_views(devices@).map_values(
        |d: LogicalView| bluetooth_observation_spec(d, preferred, knowns),
    );
    let mut r: Vec<DeviceObservation> = Vec::new();
    let mut i: usize = 0;
    while i < devices.len()
        invariant
            i <= devices@.len(),
            goal == logical_views(devices@).map_values(
                |d: LogicalView| bluetooth_observation_spec(d, preferred, knowns),
            ),
            goal.len() == devices@.len(),
            preferred == preferred_control_state@,
            knowns == known_views(preferences.known_devices@),
            observation_views(r@) == goal.subrange(0, i as int),
        decreases devices@.len() - i,
    {
        let device = &devices[i];
        let known_device_id = find_known_device(&preferences.known_devices, device);
        let mut reasons: Vec<String> = Vec::new();
        reasons.push(crate::text::owned("paired over bluetooth"));
        let observation = DeviceObservation {
            provider: InventoryEvidenceSource::Bluetooth,
            stable_id: Some(device.stable_id.clone()),
            known_device_id,
            display_name: device.display_name.clone(),
            mirror_source_id: None,
            live: true,
            capture_state: CapabilityState::Unavailable,
            preferred_control_state: preferred_control_state.clone(),
            fallback_control_state: CapabilityState::Unavailable,
            reasons,
        };
        assert(texts(observation.reasons@) =~= seq!["paired over bluetooth"@]);
        assert(logical_views(devices@)[i as int] == device@);
        assert(observation@ == goal[i as int]);
        let ghost before = r@;
        assert(observation_views(before).len() == before.len());
        r.push(observation);
        assert forall|m: int| 0 <= m < i + 1 implies #[trigger] observation_views(r@)[m]
            == goal[m] by {
            if m < i {
                assert(observation_views(before)[m] == goal.subrange(0, i as int)[m]);
            }
        }
        assert(observation_views(r@) =~= goal.subrange(0, i + 1));
        i = i + 1;
    }
    assert(goal.subrange(0, i as int) =~= goal);
    r
}

/// What the BLE control probe reports as the preferred control state.
fn map_control_state(capability: Option<ControlCapability>) -> (r: CapabilityState)
    ensures
        r@ == control_state_spec(capability, "preferred control unavailable"@),
{
    match capability {
        Some(capability) => if capability.supported {
            CapabilityState::Ready
        } else {
            CapabilityState::Blocked(
                match capability.reason {
                    Some(reason) => reason,
                    None => crate::text::owned("preferred control unavailable"),
                },
            )
        },
        None => CapabilityState::Unavailable,
    }
}

/// The phone key of a record.
fn record_key_of(record: &BluetoothDeviceRecord) -> (r: String)
    ensures
        r@ == record_key(record@),
{
    match &record.container_id {
        Some(container) => {
            let trimmed = crate::text::trim_text(container.as_str());
            if trimmed.unicode_len() > 0 {
                trimmed
            } else {
                record.stable_id.clone()
            }
        },
        None => record.stable_id.clone(),
    }
}

/// Collapses the records of each phone into one device, in string order of
/// the phones' keys.
pub fn collapse_windows_records(records: Vec<BluetoothDeviceRecord>) -> (r: Vec<LogicalBluetoothDevice>)
    ensures
        logical_views(r@) == collapse_spec(record_views(records@)),
{
    let ghost views = record_views(records@);
    let ghost all_keys = views.map_values(|x: RecordView| record_key(x));
    let n = records.len();
    let mut keys: Vec<String> = Vec::new();
    let mut i: usize = 0;
    while i < n
        invariant
            n == records@.len(),
            i <= n,
            views == record_views(records@),
            all_keys == views.map_values(|x: RecordView| record_key(x)),
            texts(keys@) == insert_all(seq![], all_keys.subrange(0, i as int), text_order()),
        decreases n - i,
    {
        assert(all_keys.subrange(0, i + 1).drop_last() =~= all_keys.subrange(0, i as int));
        assert(views[i as int] == records@[i as int]@);
        assert(all_keys[i as int] == record_key(views[i as int]));
        insert_text_sorted(&mut keys, record_key_of(&records[i]));
        i = i + 1;
    }
    assert(all_keys.subrange(0, n as int) =~= all_keys);
    assert(texts(keys@) == group_keys(views));
    let ghost goal = collapse_spec(views);
    let mut r: Vec<LogicalBluetoothDevice> = Vec::new();
    let mut k: usize = 0;
    while k < keys.len()
        invariant
            n == records@.len(),
            views == record_views(records@),
            texts(keys@) == group_keys(views),
            goal == collapse_spec(views),
            goal.len() == keys@.len(),
            k <= keys@.len(),
            logical_views(r@) == goal.subrange(0, k as int),
        decreases keys@.len() - k,
    {
        let key = &keys[k];
        let mut names: Vec<String> = Vec::new();
        let mut ids: Vec<String> = Vec::new();
        let mut j: usize = 0;
        while j < n
            invariant
                n == records@.len(),
                j <= n,
                views == record_views(records@),
                texts(names@) == group_of(views.subrange(0, j as int), key@).map_values(
                    |x: RecordView| x.display_name,
                ),
                texts(ids@) == group_of(views.subrange(0, j as int), key@).map_values(
                    |x: RecordView| x.stable_id,
                ),
            decreases n - j,
        {
            let ghost pre = views.subrange(0, j as int);
            let ghost next = views.subrange(0, j + 1);
            assert(next.drop_last() =~= pre);
            assert(next.last() == records@[j as int]@);
            let record_key_j = record_key_of(&records[j]);
            assert(group_of(next, key@) == (if record_key(next.last()) == key@ {
                group_of(pre, key@).push(next.last())
            } else {
                group_of(pre, key@)
            }));
            if crate::text::same_text(record_key_j.as_str(), key.as_str()) {
                assert(group_of(next, key@) == group_of(pre, key@).push(next.last()));
                let ghost old_names = names@;
                let ghost old_ids = ids@;
                names.push(records[j].display_name.clone());
                ids.push(records[j].stable_id.clone());
                assert(texts(names@) =~= texts(old_names).push(next.last().display_name));
                assert(texts(ids@) =~= texts(old_ids).push(next.last().stable_id));
                assert(texts(names@) =~= group_of(next, key@).map_values(
                    |x: RecordView| x.display_name,
                ));
                assert(texts(ids@) =~= group_of(next, key@).map_values(|x: RecordView| x.stable_id));
            }
            j = j + 1;
        }
        assert(views.subrange(0, n as int) =~= views);
        let display_name = choose_display_name(&names);
        let device = LogicalBluetoothDevice {
            stable_id: key.clone(),
            display_name,
            raw_stable_ids: ids,
        };
        assert(texts(keys@)[k as int] == keys@[k as int]@);
        assert(device@ == logical_spec(views, keys@[k as int]@));
        assert(goal[k as int] == device@);
        let ghost before = r@;
        assert(logical_views(before).len() == before.len());
        r.push(device);
        assert forall|m: int| 0 <= m < k + 1 implies #[trigger] logical_views(r@)[m] == goal[m] by {
            if m < k {
                assert(logical_views(before)[m] == goal.subrange(0, k as int)[m]);
            }
        }
        assert(logical_views(r@) =~= goal.subrange(0, k + 1));
        k = k + 1;
    }
    assert(goal.subrange(0, k as int) =~= goal);
    r
}

/// Whether `a` makes a better display name than `b`.
fn name_is_better(a: &str, b: &str) -> (r: bool)
    ensures
        r == name_before(a@, b@),
{
    let ca = strip_aux_bluetooth_suffix(a);
    let cb = strip_aux_bluetooth_suffix(b);
    let fa = !crate::text::same_text(ca.as_str(), a);
    let fb = !crate::text::same_text(cb.as_str(), b);
    let la = ca.as_str().len();
    let lb = cb.as_str().len();
    if !fa && fb {
        return true;
    }
    if fa != fb {
        return false;
    }
    if la != lb {
        return la < lb;
    }
    crate::text::text_less(ca.as_str(), cb.as_str())
}

/// The display name of a phone from the names of its records: the best name
/// with its service suffix cut off.
fn choose_display_name(names: &Vec<String>) -> (r: String)
    ensures
        r@ == choose_name_spec(texts(names@)),
{
    let ghost all = texts(names@);
    let n = names.len();
    if n == 0 {
        return String::new();
    }
    let mut best: usize = 0;
    let mut i: usize = 1;
    assert(all.subrange(0, 1).len() == 1);
    while i < n
        invariant
            n == names@.len(),
            1 <= i <= n,
            best < i,
            all == texts(names@),
            best == best_name_index(all.subrange(0, i as int)),
        decreases n - i,
    {
        let ghost pre = all.subrange(0, i as int);
        let ghost next = all.subrange(0, i + 1);
        assert(next.drop_last() =~= pre);
        assert(next.last() == names@[i as int]@);
        assert(next[best as int] == names@[best as int]@);
        if name_is_better(names[i].as_str(), names[best].as_str()) {
            best = i;
        }
        i = i + 1;
    }
    assert(all.subrange(0, n as int) =~= all);
    strip_aux_bluetooth_suffix(names[best].as_str())
}

/// Cuts one of the service suffixes that Windows appends to a phone's name,
/// and the white space before it.
pub fn strip_aux_bluetooth_suffix(name: &str) -> (r: String)
    ensures
        r@ == strip_aux_spec(name@),
{
    let n = name.unicode_len();
    if crate::text::ends_with_text(name, " AVRCP Transport") {
        proof {
            reveal_strlit(" AVRCP Transport");
        }
        return crate::text::trim_end_text(name.substring_char(0, n - 16));
    }
    if crate::text::ends_with_text(name, " Hands-Free AG Audio") {
        proof {
            reveal_strlit(" Hands-Free AG Audio");
        }
        return crate::text::trim_end_text(name.substring_char(0, n - 20));
    }
    if crate::text::ends_with_text(name, " Headset") {
        proof {
            reveal_strlit(" Headset");
        }
        return crate::text::trim_end_text(name.substring_char(0, n - 8));
    }
    if crate::text::ends_with_text(name, " Stereo") {
        proof {
            reveal_strlit(" Stereo");
        }
        return crate::text::trim_end_text(name.substring_char(0, n - 7));
    }
    crate::text::owned(name)
}

/// Whether a known device is this phone.
fn known_device_matches(known: &KnownDevicePreference, device: &LogicalBluetoothDevice) -> (r: bool)
    ensures
        r == known_matches_spec(known@, device@),
{
    let known_stable_id = match &known.stable_id {
        Some(id) => id,
        None => return false,
    };
    assert(known@.stable_id == Some(known_stable_id@));
    if *known_stable_id == device.stable_id {
        return true;
    }
    let mut i: usize = 0;
    while i < device.raw_stable_ids.len()
        invariant
            i <= device.raw_stable_ids@.len(),
            known@.stable_id == Some(known_stable_id@),
            forall|m: int| 0 <= m < i ==> #[trigger] texts(device.raw_stable_ids@)[m] != known_stable_id@,
        decreases device.raw_stable_ids@.len() - i,
    {
        if device.raw_stable_ids[i] == *known_stable_id {
            assert(texts(device.raw_stable_ids@)[i as int] == known_stable_id@);
            assert(texts(device.raw_stable_ids@).contains(known_stable_id@));
            return true;
        }
        i = i + 1;
    }
    false
}

/// The id of the first known device that is this phone.
fn find_known_device(knowns: &Vec<KnownDevicePreference>, device: &LogicalBluetoothDevice) -> (r:
    Option<String>)
    ensures
        opt_view(r) == first_known(known_views(knowns@), device@),
{
    let ghost all = known_views(knowns@);
    let mut i: usize = 0;
    assert(all.skip(0) =~= all);
    while i < knowns.len()
        invariant
            i <= knowns@.len(),
            all == known_views(knowns@),
            first_known(all, device@) == first_known(all.skip(i as int), device@),
        decreases knowns@.len() - i,
    {
        assert(all.skip(i as int)[0] == knowns@[i as int]@);
        if known_device_matches(&knowns[i], device) {
            return Some(knowns[i].known_device_id.clone());
        }
        assert(all.skip(i as int).drop_first() =~= all.skip(i + 1));
        i = i + 1;
    }
    assert(all.skip(i as int).len() == 0);
    None
}

} // verus!
