//! The device list: one row per inventory device or active session.
use vstd::prelude::*;
use crate::inventory::model::{
    device_views, opt_view, CapabilityState, CapabilityView, DeviceView, InventoryDevice,
    InventoryEvidenceSource, Sessionability,
};
use crate::ordered::texts;
use crate::protocol::DeviceSessionStatus;

verus! {

/// One row of the device list.
#[derive(Debug, PartialEq, Eq)]
pub struct FleetRow {
    pub device_id: String,
    pub device_name: String,
    pub evidence_badges: Vec<String>,
    pub readiness_summary: String,
    pub start_enabled: bool,
    pub operator_action: Option<String>,
    pub active_session: bool,
}

/// The device list.
#[derive(Debug, PartialEq, Eq)]
pub struct FleetViewModel {
    pub rows: Vec<FleetRow>,
}

/// The characters of a [`FleetRow`].
pub struct FleetRowView {
    pub device_id: Seq<char>,
    pub device_name: Seq<char>,
    pub evidence_badges: Seq<Seq<char>>,
    pub readiness_summary: Seq<char>,
    pub start_enabled: bool,
    pub operator_action: Option<Seq<char>>,
    pub active_session: bool,
}

impl View for FleetRow {
    type V = FleetRowView;

    open spec fn view(&self) -> FleetRowView {
        FleetRowView {
            device_id: self.device_id@,
            device_name: self.device_name@,
            evidence_badges: texts(self.evidence_badges@),
            readiness_summary: self.readiness_summary@,
            start_enabled: self.start_enabled,
            operator_action: opt_view(self.operator_action),
            active_session: self.active_session,
        }
    }
}

/// The views of a sequence of rows.
pub open spec fn row_views(rows: Seq<FleetRow>) -> Seq<FleetRowView> {
    rows.map_values(|r: FleetRow| r@)
}

/// Index of the first status of the device with the given id, if any.
pub open spec fn status_index(statuses: Seq<DeviceSessionStatus>, device_id: Seq<char>) -> Option<int>
    decreases statuses.len(),
{
    if statuses.len() == 0 {
        None
    } else {
        match status_index(statuses.drop_last(), device_id) {
            Some(i) => Some(i),
            None => if statuses.last().summary.device_id@ == device_id {
                Some(statuses.len() - 1)
            } else {
                None
            },
        }
    }
}

/// The operator action of the device's status, if it has a status with one.
pub open spec fn action_for(statuses: Seq<DeviceSessionStatus>, device_id: Seq<char>) -> Option<Seq<char>> {
    match status_index(statuses, device_id) {
        Some(i) => opt_view(statuses[i].operator_action),
        None => None,
    }
}

/// The badge of an evidence source.
pub open spec fn badge_spec(source: InventoryEvidenceSource) -> Seq<char> {
    match source {
        InventoryEvidenceSource::Bluetooth => "Bluetooth"@,
        InventoryEvidenceSource::Mirror => "Mirror"@,
        InventoryEvidenceSource::Known => "Known"@,
    }
}

/// A device's badges: one per evidence source, then `Active` during a session.
pub open spec fn badges_spec(sources: Seq<InventoryEvidenceSource>, active_session: bool) -> Seq<Seq<char>> {
    sources.map_values(|s: InventoryEvidenceSource| badge_spec(s)) + if active_session {
        seq!["Active"@]
    } else {
        seq![]
    }
}

/// A device's readiness as the device list words it.
pub open spec fn readiness_spec(sessionability: Sessionability, active_session: bool) -> Seq<char> {
    if active_session {
        "Active session"@
    } else {
        match sessionability {
            Sessionability::StartableWithPreferredPath => "Startable"@,
            Sessionability::StartableWithFallback => "Startable (fallback)"@,
            Sessionability::NotStartable => "Not startable"@,
            Sessionability::Unknown => "Historical"@,
        }
    }
}

/// Either control path of the device is ready.
pub open spec fn launcher_control_ready_spec(device: DeviceView) -> bool {
    device.preferred_control_state is Ready || device.fallback_control_state is Ready
}

/// The row of an inventory device.
pub open spec fn inventory_row_spec(device: DeviceView, statuses: Seq<DeviceSessionStatus>) -> FleetRowView {
    let active = status_index(statuses, device.inventory_id) is Some;
    FleetRowView {
        device_id: device.inventory_id,
        device_name: device.display_name,
        evidence_badges: badges_spec(device.evidence_sources, active),
        readiness_summary: readiness_spec(device.sessionability, active),
        start_enabled: device.sessionability == Sessionability::StartableWithPreferredPath
            || device.sessionability == Sessionability::StartableWithFallback,
        operator_action: action_for(statuses, device.inventory_id),
        active_session: active,
    }
}

/// The row of a device in the launcher, where starting needs the direct
/// receiver and a ready control path.
pub open spec fn launcher_row_spec(
    device: DeviceView,
    direct_receiver_available: bool,
    statuses: Seq<DeviceSessionStatus>,
) -> FleetRowView {
    let active = status_index(statuses, device.inventory_id) is Some;
    let start = direct_receiver_available && launcher_control_ready_spec(device);
    FleetRowView {
        device_id: device.inventory_id,
        device_name: device.display_name,
        evidence_badges: badges_spec(device.evidence_sources, active),
        readiness_summary: if start {
            "Startable"@
        } else {
            "Not Startable"@
        },
        start_enabled: start,
        operator_action: action_for(statuses, device.inventory_id),
        active_session: active,
    }
}

/// The launcher's rows: the devices seen over Bluetooth, in inventory order.
pub open spec fn launcher_rows_spec(
    devices: Seq<DeviceView>,
    direct_receiver_available: bool,
    statuses: Seq<DeviceSessionStatus>,
) -> Seq<FleetRowView>
    decreases devices.len(),
{
    if devices.len() == 0 {
        seq![]
    } else {
        let rows = launcher_rows_spec(devices.drop_last(), direct_receiver_available, statuses);
        if devices.last().evidence_sources.contains(InventoryEvidenceSource::Bluetooth) {
            rows.push(launcher_row_spec(devices.last(), direct_receiver_available, statuses))
        } else {
            rows
        }
    }
}

/// The row of an active session.
pub open spec fn status_row_spec(status: DeviceSessionStatus) -> FleetRowView {
    FleetRowView {
        device_id: status.summary.device_id@,
        device_name: status.summary.device_name@,
        evidence_badges: seq!["Active"@],
        readiness_summary: "Active session"@,
        start_enabled: false,
        operator_action: opt_view(status.operator_action),
        active_session: true,
    }
}

/// Some row has the given device id.
pub open spec fn has_row(rows: Seq<FleetRowView>, device_id: Seq<char>) -> bool {
    exists|i: int| 0 <= i < rows.len() && #[trigger] rows[i].device_id == device_id
}

/// The rows with a row added for each session whose device has none yet.
pub open spec fn add_session_rows(rows: Seq<FleetRowView>, statuses: Seq<DeviceSessionStatus>) -> Seq<
    FleetRowView,
>
    decreases statuses.len(),
{
    if statuses.len() == 0 {
        rows
    } else {
        let before = add_session_rows(rows, statuses.drop_last());
        if has_row(before, statuses.last().summary.device_id@) {
            before
        } else {
            before.push(status_row_spec(statuses.last()))
        }
    }
}

/// Index of the first status of the device with the given id.
pub fn find_status(statuses: &[DeviceSessionStatus], device_id: &str) -> (r: Option<usize>)
    ensures
        match r {
            Some(i) => i < statuses@.len() && status_index(statuses@, device_id@) == Some(i as int),
            None => status_index(statuses@, device_id@) is None,
        },
{
    let n = statuses.len();
    let mut i: usize = 0;
    while i < n
        invariant
            n == statuses@.len(),
            i <= n,
            status_index(statuses@.subrange(0, i as int), device_id@) is None,
        decreases n - i,
    {
        assert(statuses@.subrange(0, i + 1).drop_last() =~= statuses@.subrange(0, i as int));
        if crate::text::same_text(statuses[i].summary.device_id.as_str(), device_id) {
            proof {
                lemma_status_index_prefix(statuses@, device_id@, i as int + 1);
            }
            return Some(i);
        }
        i = i + 1;
    }
    assert(statuses@.subrange(0, n as int) =~= statuses@);
    None
}

/// Once a prefix holds the id, the whole sequence finds it at the same place.
pub proof fn lemma_status_index_prefix(statuses: Seq<DeviceSessionStatus>, device_id: Seq<char>, k: int)
    requires
        0 <= k <= statuses.len(),
        status_index(statuses.subrange(0, k), device_id) is Some,
    ensures
        status_index(statuses, device_id) == status_index(statuses.subrange(0, k), device_id),
    decreases statuses.len() - k,
{
    if k < statuses.len() {
        assert(statuses.subrange(0, k + 1).drop_last() =~= statuses.subrange(0, k));
        lemma_status_index_prefix(statuses, device_id, k + 1);
    } else {
        assert(statuses.subrange(0, k) =~= statuses);
    }
}

/// The operator action of the device's first status.
fn operator_action_of(statuses: &[DeviceSessionStatus], found: Option<usize>) -> (r: Option<String>)
    requires
        found matches Some(i) ==> i < statuses@.len(),
    ensures
        opt_view(r) == (match found {
            Some(i) => opt_view(statuses@[i as int].operator_action),
            None => None,
        }),
{
    match found {
        Some(i) => crate::text::copy_opt(&statuses[i].operator_action),
        None => None,
    }
}

/// The row of an active session.
fn status_row(status: &DeviceSessionStatus) -> (r: FleetRow)
    ensures
        r@ == status_row_spec(*status),
{
    let mut badges: Vec<String> = Vec::new();
    badges.push(crate::text::owned("Active"));
    let r = FleetRow {
        device_id: status.summary.device_id.clone(),
        device_name: status.summary.device_name.clone(),
        evidence_badges: badges,
        readiness_summary: crate::text::owned("Active session"),
        start_enabled: false,
        operator_action: crate::text::copy_opt(&status.operator_action),
        active_session: true,
    };
    assert(texts(r.evidence_badges@) =~= seq!["Active"@]);
    r
}

impl FleetViewModel {
    /// The launcher's rows: one per device seen over Bluetooth, startable when
    /// the direct receiver is available and a control path is ready.
    pub fn for_launcher(
        devices: &[InventoryDevice],
        direct_receiver_available: bool,
        statuses: &[DeviceSessionStatus],
    ) -> (r: Self)
        ensures
            row_views(r.rows@) == launcher_rows_spec(
                device_views(devices@),
                direct_receiver_available,
                statuses@,
            ),
    {
        let ghost views = device_views(devices@);
        let n = devices.len();
        let mut rows: Vec<FleetRow> = Vec::new();
        let mut i: usize = 0;
        while i < n
            invariant
                n == devices@.len(),
                i <= n,
                views == device_views(devices@),
                row_views(rows@) == launcher_rows_spec(
                    views.subrange(0, i as int),
                    direct_receiver_available,
                    statuses@,
                ),
            decreases n - i,
        {
            let ghost pre = views.subrange(0, i as int);
            let ghost next = views.subrange(0, i + 1);
            assert(next.drop_last() =~= pre);
            assert(next.last() == devices@[i as int]@);
            let device = &devices[i];
            if has_source(&device.evidence_sources, InventoryEvidenceSource::Bluetooth) {
                let found = find_status(statuses, device.inventory_id.as_str());
                let start_enabled = direct_receiver_available && launcher_control_ready(device);
                let row = FleetRow {
                    device_id: device.inventory_id.clone(),
                    device_name: device.display_name.clone(),
                    evidence_badges: badges_for_device(device, found.is_some()),
                    readiness_summary: if start_enabled {
                        crate::text::owned("Startable")
                    } else {
                        crate::text::owned("Not Startable")
                    },
                    start_enabled,
                    operator_action: operator_action_of(statuses, found),
                    active_session: found.is_some(),
                };
                assert(row@ == launcher_row_spec(device@, direct_receiver_available, statuses@));
                let ghost before = rows@;
                rows.push(row);
                assert(row_views(rows@) =~= row_views(before).push(row@));
            }
            i = i + 1;
        }
        assert(views.subrange(0, n as int) =~= views);
        FleetViewModel { rows }
    }

    /// One active row per session, in status order.
    pub fn from_statuses(statuses: &[DeviceSessionStatus]) -> (r: Self)
        ensures
            row_views(r.rows@) == statuses@.map_values(|s: DeviceSessionStatus| status_row_spec(s)),
    {
        let ghost goal = statuses@.map_values(|s: DeviceSessionStatus| status_row_spec(s));
        let n = statuses.len();
        let mut rows: Vec<FleetRow> = Vec::new();
        let mut i: usize = 0;
        while i < n
            invariant
                n == statuses@.len(),
                i <= n,
                goal == statuses@.map_values(|s: DeviceSessionStatus| status_row_spec(s)),
                row_views(rows@) == goal.subrange(0, i as int),
            decreases n - i,
        {
            let row = status_row(&statuses[i]);
            let ghost before = rows@;
            assert(row_views(before).len() == before.len());
            assert(goal.len() == n);
            assert(goal[i as int] == row@);
            rows.push(row);
            assert forall|k: int| 0 <= k < i + 1 implies #[trigger] row_views(rows@)[k] == goal[k] by {
                if k < i {
                    assert(row_views(before)[k] == goal.subrange(0, i as int)[k]);
                }
            }
            assert(row_views(rows@) =~= goal.subrange(0, i + 1));
            i = i + 1;
        }
        assert(goal.subrange(0, n as int) =~= goal);
        FleetViewModel { rows }
    }

    /// One row per inventory device, then one active row for each session
    /// whose device has no row yet.
    pub fn from_inventory(devices: &[InventoryDevice], statuses: &[DeviceSessionStatus]) -> (r: Self)
        ensures
            row_views(r.rows@) == add_session_rows(
                device_views(devices@).map_values(|d: DeviceView| inventory_row_spec(d, statuses@)),
                statuses@,
            ),
    {
        let ghost base = device_views(devices@).map_values(
            |d: DeviceView| inventory_row_spec(d, statuses@),
        );
        let n = devices.len();
        let mut rows: Vec<FleetRow> = Vec::new();
        let mut i: usize = 0;
        while i < n
            invariant
                n == devices@.len(),
                i <= n,
                base == device_views(devices@).map_values(
                    |d: DeviceView| inventory_row_spec(d, statuses@),
                ),
                row_views(rows@) == base.subrange(0, i as int),
            decreases n - i,
        {
            let device = &devices[i];
            let found = find_status(statuses, device.inventory_id.as_str());
            let row = FleetRow {
                device_id: device.inventory_id.clone(),
                device_name: device.display_name.clone(),
                evidence_badges: badges_for_device(device, found.is_some()),
                readiness_summary: readiness_summary(device, found.is_some()),
                start_enabled: match device.sessionability {
                    Sessionability::StartableWithPreferredPath
                    | Sessionability::StartableWithFallback => true,
                    _ => false,
                },
                operator_action: operator_action_of(statuses, found),
                active_session: found.is_some(),
            };
            assert(device_views(devices@)[i as int] == device@);
            assert(row@ == base[i as int]);
            let ghost before = rows@;
            assert(row_views(before).len() == before.len());
            assert(base.len() == n);
            rows.push(row);
            assert forall|k: int| 0 <= k < i + 1 implies #[trigger] row_views(rows@)[k] == base[k] by {
                if k < i {
                    assert(row_views(before)[k] == base.subrange(0, i as int)[k]);
                }
            }
            assert(row_views(rows@) =~= base.subrange(0, i + 1));
            i = i + 1;
        }
        assert(base.subrange(0, n as int) =~= base);
        let m = statuses.len();
        let mut j: usize = 0;
        while j < m
            invariant
                m == statuses@.len(),
                j <= m,
                row_views(rows@) == add_session_rows(base, statuses@.subrange(0, j as int)),
            decreases m - j,
        {
            assert(statuses@.subrange(0, j + 1).drop_last() =~= statuses@.subrange(0, j as int));
            let status = &statuses[j];
            if !any_row_has(&rows, status.summary.device_id.as_str()) {
                let row = status_row(status);
                let ghost before = rows@;
                rows.push(row);
                assert(row_views(rows@) =~= row_views(before).push(row@));
            }
            j = j + 1;
        }
        assert(statuses@.subrange(0, m as int) =~= statuses@);
        FleetViewModel { rows }
    }
}

/// Whether some row has the given device id.
fn any_row_has(rows: &Vec<FleetRow>, device_id: &str) -> (r: bool)
    ensures
        r == has_row(row_views(rows@), device_id@),
{
    let n = rows.len();
    let mut i: usize = 0;
    while i < n
        invariant
            n == rows@.len(),
            i <= n,
            forall|k: int| 0 <= k < i ==> #[trigger] row_views(rows@)[k].device_id != device_id@,
        decreases n - i,
    {
        if crate::text::same_text(rows[i].device_id.as_str(), device_id) {
            assert(row_views(rows@)[i as int].device_id == device_id@);
            return true;
        }
        i = i + 1;
    }
    false
}

/// Whether the sources hold the given one.
fn has_source(sources: &Vec<InventoryEvidenceSource>, source: InventoryEvidenceSource) -> (r: bool)
    ensures
        r == sources@.contains(source),
{
    let n = sources.len();
    let mut i: usize = 0;
    while i < n
        invariant
            n == sources@.len(),
            i <= n,
            forall|k: int| 0 <= k < i ==> sources@[k] != source,
        decreases n - i,
    {
        if sources[i] == source {
            return true;
        }
        i = i + 1;
    }
    false
}

/// Whether either control path of the device is ready.
fn launcher_control_ready(device: &InventoryDevice) -> (r: bool)
    ensures
        r == launcher_control_ready_spec(device@),
{
    matches!(device.preferred_control_state, CapabilityState::Ready) || matches!(
        device.fallback_control_state,
        CapabilityState::Ready
    )
}

/// The badge of one evidence source.
fn badge(source: InventoryEvidenceSource) -> (r: String)
    ensures
        r@ == badge_spec(source),
{
    match source {
        InventoryEvidenceSource::Bluetooth => crate::text::owned("Bluetooth"),
        InventoryEvidenceSource::Mirror => crate::text::owned("Mirror"),
        InventoryEvidenceSource::Known => crate::text::owned("Known"),
    }
}

/// A device's badges: one per evidence source, then `Active` during a session.
fn badges_for_device(device: &InventoryDevice, active_session: bool) -> (r: Vec<String>)
    ensures
        texts(r@) == badges_spec(device.evidence_sources@, active_session),
{
    let ghost mapped = device.evidence_sources@.map_values(|s: InventoryEvidenceSource| badge_spec(s));
    let n = device.evidence_sources.len();
    let mut badges: Vec<String> = Vec::new();
    let mut i: usize = 0;
    while i < n
        invariant
            n == device.evidence_sources@.len(),
            i <= n,
            mapped == device.evidence_sources@.map_values(
                |s: InventoryEvidenceSource| badge_spec(s),
            ),
            texts(badges@) == mapped.subrange(0, i as int),
        decreases n - i,
    {
        let ghost before = badges@;
        assert(texts(before).len() == before.len());
        assert(mapped.len() == n);
        badges.push(badge(device.evidence_sources[i]));
        assert forall|k: int| 0 <= k < i + 1 implies #[trigger] texts(badges@)[k] == mapped[k] by {
            if k < i {
                assert(texts(before)[k] == mapped.subrange(0, i as int)[k]);
            }
        }
        assert(texts(badges@) =~= mapped.subrange(0, i + 1));
        i = i + 1;
    }
    assert(mapped.subrange(0, n as int) =~= mapped);
    if active_session {
        let ghost before = texts(badges@);
        badges.push(crate::text::owned("Active"));
        assert(texts(badges@) =~= before + seq!["Active"@]);
    } else {
        assert(texts(badges@) =~= mapped + seq![]);
    }
    badges
}

/// A device's readiness as the device list words it.
fn readiness_summary(device: &InventoryDevice, active_session: bool) -> (r: String)
    ensures
        r@ == readiness_spec(device.sessionability, active_session),
{
    if active_session {
        return crate::text::owned("Active session");
    }
    match device.sessionability {
        Sessionability::StartableWithPreferredPath => crate::text::owned("Startable"),
        Sessionability::StartableWithFallback => crate::text::owned("Startable (fallback)"),
        Sessionability::NotStartable => crate::text::owned("Not startable"),
        Sessionability::Unknown => crate::text::owned("Historical"),
    }
}

/// A launcher row can be started exactly when the direct receiver is
/// available and the device has a ready control path, preferred (BLE) or
/// fallback (window input bridge); its summary says so.
pub proof fn law_launcher_start_needs_receiver_and_a_ready_path(
    device: DeviceView,
    direct_receiver_available: bool,
    statuses: Seq<DeviceSessionStatus>,
)
    ensures
        launcher_row_spec(device, direct_receiver_available, statuses).start_enabled == (direct_receiver_available
            && (device.preferred_control_state is Ready || device.fallback_control_state is Ready)),
        launcher_row_spec(device, direct_receiver_available, statuses).readiness_summary == if direct_receiver_available
            && (device.preferred_control_state is Ready || device.fallback_control_state is Ready) {
            "Startable"@
        } else {
            "Not Startable"@
        },
        launcher_row_spec(device, direct_receiver_available, statuses).device_id == device.inventory_id,
{
}

/// The launcher lists the devices seen over Bluetooth, each as its launcher
/// row: every row is the row of such a device, and the row of every such
/// device is listed.
pub proof fn law_launcher_lists_bluetooth_devices(
    devices: Seq<DeviceView>,
    direct_receiver_available: bool,
    statuses: Seq<DeviceSessionStatus>,
)
    ensures
        forall|i: int|
            0 <= i < launcher_rows_spec(devices, direct_receiver_available, statuses).len() ==> exists|j: int|
                0 <= j < devices.len() && devices[j].evidence_sources.contains(InventoryEvidenceSource::Bluetooth)
                    && #[trigger] launcher_rows_spec(devices, direct_receiver_available, statuses)[i]
                    == launcher_row_spec(devices[j], direct_receiver_available, statuses),
        forall|j: int|
            0 <= j < devices.len() && #[trigger] devices[j].evidence_sources.contains(InventoryEvidenceSource::Bluetooth)
                ==> launcher_rows_spec(devices, direct_receiver_available, statuses).contains(
                launcher_row_spec(devices[j], direct_receiver_available, statuses),
            ),
    decreases devices.len(),
{
    if devices.len() > 0 {
        let rest = devices.drop_last();
        law_launcher_lists_bluetooth_devices(rest, direct_receiver_available, statuses);
        let before = launcher_rows_spec(rest, direct_receiver_available, statuses);
        let rows = launcher_rows_spec(devices, direct_receiver_available, statuses);
        let last = devices.last();
        assert forall|i: int| 0 <= i < rows.len() implies exists|j: int|
            0 <= j < devices.len() && devices[j].evidence_sources.contains(InventoryEvidenceSource::Bluetooth)
                && #[trigger] rows[i] == launcher_row_spec(devices[j], direct_receiver_available, statuses) by {
            if i < before.len() {
                assert(rows[i] == before[i]);
                let j = choose|j: int|
                    0 <= j < rest.len() && rest[j].evidence_sources.contains(InventoryEvidenceSource::Bluetooth)
                        && #[trigger] before[i] == launcher_row_spec(rest[j], direct_receiver_available, statuses);
                assert(devices[j] == rest[j]);
            } else {
                assert(devices[devices.len() - 1] == last);
            }
        }
        assert forall|j: int|
            0 <= j < devices.len() && #[trigger] devices[j].evidence_sources.contains(InventoryEvidenceSource::Bluetooth)
                implies rows.contains(launcher_row_spec(devices[j], direct_receiver_available, statuses)) by {
            let target = launcher_row_spec(devices[j], direct_receiver_available, statuses);
            if j < rest.len() {
                assert(devices[j] == rest[j]);
                assert(rest[j].evidence_sources.contains(InventoryEvidenceSource::Bluetooth));
                assert(before.contains(target));
                let k = choose|k: int| 0 <= k < before.len() && before[k] == target;
                if last.evidence_sources.contains(InventoryEvidenceSource::Bluetooth) {
                    assert(rows[k] == target);
                }
            } else {
                assert(rows[rows.len() - 1] == target);
            }
        }
    }
}

} // verus!
