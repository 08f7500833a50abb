//! What the device detail, session and diagnostics panes show for a device of
//! the inventory.
use vstd::prelude::*;
use crate::inventory::model::{
    opt_view, DeviceView, InventoryDevice, InventoryEvidenceSource, Sessionability,
};
use crate::ordered::texts;
use crate::panels::device_detail::{
    opt_option_view, option_views, CaptureSourceOption, ControlSetupChecklist, SourceOptionView,
};
use crate::text::{ascii_lower_seq, ascii_upper, has_prefix, occurs_in};
use crate::view_models::device_detail::{DetailView, DeviceDetailViewModel};
use crate::view_models::diagnostics::DiagnosticsView;
use crate::view_models::session::{blocked_view, idle_startable_view, SessionView, SessionViewModel};
use super::{keeps_runtime, AppView, HostDesktopApp};

verus! {

/// The source shown for a session of which the runtime reports only the
/// capture backend: the operator mirror for window backends, the direct
/// receiver otherwise.
pub open spec fn backend_source_spec(backend: Seq<char>) -> SourceOptionView {
    if has_prefix(backend, "capture.window"@) {
        SourceOptionView { source_id: "window-helper-1"@, display_name: "Operator Mirror"@ }
    } else {
        SourceOptionView { source_id: "direct-1"@, display_name: "Direct Receiver"@ }
    }
}

/// The source shown for a session of which the runtime reports only the
/// capture backend.
pub fn capture_source_for_backend(backend: &str) -> (r: CaptureSourceOption)
    ensures
        r@ == backend_source_spec(backend@),
{
    if crate::text::starts_with_text(backend, "capture.window") {
        CaptureSourceOption::new("window-helper-1", "Operator Mirror")
    } else {
        CaptureSourceOption::new("direct-1", "Direct Receiver")
    }
}

/// The note that a kind of evidence gives.
pub open spec fn evidence_note(source: InventoryEvidenceSource) -> Seq<char> {
    match source {
        InventoryEvidenceSource::Bluetooth => "paired over bluetooth"@,
        InventoryEvidenceSource::Mirror => "live mirror source observed"@,
        InventoryEvidenceSource::Known => "known from history only"@,
    }
}

/// The notes of an inventory row: one per kind of evidence, then its reasons.
pub open spec fn inventory_notes_spec(d: DeviceView) -> Seq<Seq<char>> {
    d.evidence_sources.map_values(|e: InventoryEvidenceSource| evidence_note(e)) + d.reasons
}

/// The notes of an inventory row: one per kind of evidence, then its reasons.
pub fn inventory_notes(device: &InventoryDevice) -> (r: Vec<String>)
    ensures
        texts(r@) == inventory_notes_spec(device@),
{
    let mut notes: Vec<String> = Vec::new();
    let n = device.evidence_sources.len();
    let mut i: usize = 0;
    while i < n
        invariant
            n == device.evidence_sources@.len(),
            i <= n,
            texts(notes@) == device.evidence_sources@.subrange(0, i as int).map_values(
                |e: InventoryEvidenceSource| evidence_note(e),
            ),
        decreases n - i,
    {
        let ghost before = notes@;
        let note = match device.evidence_sources[i] {
            InventoryEvidenceSource::Bluetooth => crate::text::owned("paired over bluetooth"),
            InventoryEvidenceSource::Mirror => crate::text::owned("live mirror source observed"),
            InventoryEvidenceSource::Known => crate::text::owned("known from history only"),
        };
        notes.push(note);
        proof {
            assert(texts(notes@) =~= texts(before).push(note@));
            assert(device.evidence_sources@.subrange(0, i + 1).map_values(
                |e: InventoryEvidenceSource| evidence_note(e),
            ) =~= device.evidence_sources@.subrange(0, i as int).map_values(
                |e: InventoryEvidenceSource| evidence_note(e),
            ).push(evidence_note(device.evidence_sources@[i as int])));
        }
        i = i + 1;
    }
    assert(device.evidence_sources@.subrange(0, n as int) =~= device.evidence_sources@);
    let m = device.reasons.len();
    let ghost head = texts(notes@);
    let mut j: usize = 0;
    while j < m
        invariant
            m == device.reasons@.len(),
            j <= m,
            texts(notes@) == head + texts(device.reasons@).subrange(0, j as int),
        decreases m - j,
    {
        let ghost before = notes@;
        notes.push(device.reasons[j].clone());
        proof {
            assert(texts(notes@) =~= texts(before).push(device.reasons@[j as int]@));
            assert(texts(device.reasons@).subrange(0, j + 1) =~= texts(device.reasons@).subrange(
                0,
                j as int,
            ).push(device.reasons@[j as int]@));
        }
        j = j + 1;
    }
    assert(texts(device.reasons@).subrange(0, m as int) =~= texts(device.reasons@));
    notes
}

/// A live row that Bluetooth reported; such rows may briefly go missing from
/// an inventory.
pub open spec fn is_transient_spec(d: DeviceView) -> bool {
    d.live && d.evidence_sources.contains(InventoryEvidenceSource::Bluetooth)
}

/// Whether a row is live and was reported by Bluetooth.
pub fn is_transient_bluetooth_row(device: &InventoryDevice) -> (r: bool)
    ensures
        r == is_transient_spec(device@),
{
    if !device.live {
        return false;
    }
    let n = device.evidence_sources.len();
    let mut i: usize = 0;
    while i < n
        invariant
            n == device.evidence_sources@.len(),
            device.live,
            i <= n,
            forall|k: int| 0 <= k < i ==> device.evidence_sources@[k] != InventoryEvidenceSource::Bluetooth,
        decreases n - i,
    {
        let is_bluetooth = match device.evidence_sources[i] {
            InventoryEvidenceSource::Bluetooth => true,
            _ => false,
        };
        if is_bluetooth {
            assert(device@.evidence_sources[i as int] == InventoryEvidenceSource::Bluetooth);
            assert(device@.evidence_sources.contains(InventoryEvidenceSource::Bluetooth));
            return true;
        }
        i = i + 1;
    }
    assert(!device@.evidence_sources.contains(InventoryEvidenceSource::Bluetooth));
    false
}

/// A reason that explains why no session can start: it speaks, in any case,
/// of no capture, of something unavailable or of something missing.
pub open spec fn is_blocking_reason(reason: Seq<char>) -> bool {
    let lowered = ascii_lower_seq(reason);
    occurs_in(lowered, "no capture"@) || occurs_in(lowered, "unavailable"@) || occurs_in(
        lowered,
        "missing"@,
    )
}

/// Index of the first blocking reason, if any.
pub open spec fn first_blocking(reasons: Seq<Seq<char>>) -> Option<int>
    decreases reasons.len(),
{
    if reasons.len() == 0 {
        None
    } else {
        match first_blocking(reasons.drop_last()) {
            Some(i) => Some(i),
            None => if is_blocking_reason(reasons.last()) {
                Some(reasons.len() - 1)
            } else {
                None
            },
        }
    }
}

/// The first letter in upper case (ASCII only), the rest unchanged.
pub open spec fn sentence_spec(s: Seq<char>) -> Seq<char> {
    if s.len() == 0 {
        s
    } else {
        seq![ascii_upper(s[0])] + s.drop_first()
    }
}

/// The message that explains a row: its first blocking reason, else its first
/// reason, else `default`, with a capital first letter.
pub open spec fn first_reason_spec(d: DeviceView, default: Seq<char>) -> Seq<char> {
    match first_blocking(d.reasons) {
        Some(i) => sentence_spec(d.reasons[i]),
        None => sentence_spec(if d.reasons.len() > 0 { d.reasons[0] } else { default }),
    }
}

proof fn lemma_first_blocking_prefix(reasons: Seq<Seq<char>>, k: int)
    requires
        0 <= k <= reasons.len(),
        first_blocking(reasons.subrange(0, k)) is Some,
    ensures
        first_blocking(reasons) == first_blocking(reasons.subrange(0, k)),
    decreases reasons.len() - k,
{
    if k < reasons.len() {
        assert(reasons.subrange(0, k + 1).drop_last() =~= reasons.subrange(0, k));
        lemma_first_blocking_prefix(reasons, k + 1);
    } else {
        assert(reasons.subrange(0, k) =~= reasons);
    }
}

/// The message that explains a row: its first blocking reason, else its first
/// reason, else `default`, with a capital first letter.
pub fn first_reason_or_default(device: &InventoryDevice, default: &str) -> (r: String)
    ensures
        r@ == first_reason_spec(device@, default@),
{
    let ghost reasons = device@.reasons;
    let n = device.reasons.len();
    let mut i: usize = 0;
    while i < n
        invariant
            n == device.reasons@.len(),
            reasons == texts(device.reasons@),
            i <= n,
            first_blocking(reasons.subrange(0, i as int)) is None,
        decreases n - i,
    {
        assert(reasons.subrange(0, i + 1).drop_last() =~= reasons.subrange(0, i as int));
        let lowered = crate::text::ascii_lowercase_text(device.reasons[i].as_str());
        if crate::text::contains_text(lowered.as_str(), "no capture") || crate::text::contains_text(
            lowered.as_str(),
            "unavailable",
        ) || crate::text::contains_text(lowered.as_str(), "missing") {
            proof {
                assert(first_blocking(reasons.subrange(0, i + 1)) == Some(i as int));
                lemma_first_blocking_prefix(reasons, i + 1);
            }
            return crate::text::sentence_case(device.reasons[i].as_str());
        }
        i = i + 1;
    }
    assert(reasons.subrange(0, n as int) =~= reasons);
    if n > 0 {
        crate::text::sentence_case(device.reasons[0].as_str())
    } else {
        crate::text::sentence_case(default)
    }
}

/// Index of the first row that shows the mirror source `source_id`.
pub open spec fn mirror_index(inventory: Seq<DeviceView>, source_id: Seq<char>) -> Option<int>
    decreases inventory.len(),
{
    if inventory.len() == 0 {
        None
    } else {
        match mirror_index(inventory.drop_last(), source_id) {
            Some(i) => Some(i),
            None => if inventory.last().mirror_source_id == Some(source_id) {
                Some(inventory.len() - 1)
            } else {
                None
            },
        }
    }
}

/// A source option named after the first row that shows it, else after
/// `fallback`.
pub open spec fn source_option_spec(inventory: Seq<DeviceView>, source_id: Seq<char>, fallback: Seq<char>) -> SourceOptionView {
    SourceOptionView {
        source_id,
        display_name: match mirror_index(inventory, source_id) {
            Some(i) => inventory[i].display_name,
            None => fallback,
        },
    }
}

/// The ids of a sequence of source options.
pub open spec fn option_ids(options: Seq<SourceOptionView>) -> Seq<Seq<char>> {
    options.map_values(|o: SourceOptionView| o.source_id)
}

/// The sources of the live rows among the first `k`, each once, in the order
/// the rows first show them.
pub open spec fn live_sources(inventory: Seq<DeviceView>, k: int) -> Seq<SourceOptionView>
    decreases k,
{
    if k <= 0 {
        seq![]
    } else {
        let before = live_sources(inventory, k - 1);
        let d = inventory[k - 1];
        if d.live && d.mirror_source_id is Some && !option_ids(before).contains(d.mirror_source_id->0) {
            before.push(source_option_spec(inventory, d.mirror_source_id->0, d.display_name))
        } else {
            before
        }
    }
}

/// The sources offered for a row: its own mirror source if it has one, else
/// the sources of all live rows.
pub open spec fn sources_for_device_spec(inventory: Seq<DeviceView>, d: DeviceView) -> Seq<SourceOptionView> {
    match d.mirror_source_id {
        Some(m) => seq![source_option_spec(inventory, m, d.display_name)],
        None => live_sources(inventory, inventory.len() as int),
    }
}

/// Index of the first option with the given id.
pub open spec fn option_index(options: Seq<SourceOptionView>, id: Seq<char>) -> Option<int>
    decreases options.len(),
{
    if options.len() == 0 {
        None
    } else {
        match option_index(options.drop_last(), id) {
            Some(i) => Some(i),
            None => if options.last().source_id == id {
                Some(options.len() - 1)
            } else {
                None
            },
        }
    }
}

/// The first option with the given id, if an id is given and an option has it.
pub open spec fn find_option(options: Seq<SourceOptionView>, id: Option<Seq<char>>) -> Option<SourceOptionView> {
    match id {
        Some(i) => match option_index(options, i) {
            Some(k) => Some(options[k]),
            None => None,
        },
        None => None,
    }
}

/// The id of an optional source.
pub open spec fn option_id(o: Option<SourceOptionView>) -> Option<Seq<char>> {
    match o {
        Some(v) => Some(v.source_id),
        None => None,
    }
}

/// What the panes show for an inventory row: its sources (the one of its
/// mirror, else the one chosen before), its reasons and notes, how ready its
/// control path is, and whether a session can start.
#[verifier::opaque]
pub open spec fn inventory_detail_spec(s: AppView, d: DeviceView) -> AppView {
    let sources = sources_for_device_spec(s.inventory, d);
    let selected = match find_option(sources, d.mirror_source_id) {
        Some(o) => Some(o),
        None => find_option(sources, s.detail.active_source_id),
    };
    AppView {
        detail: DetailView {
            device_name: d.display_name,
            capture_sources: sources,
            active_source_id: option_id(selected),
            control_checklist: d.reasons,
            inventory_notes: inventory_notes_spec(d),
        },
        diagnostics: DiagnosticsView {
            host_error: None,
            control_summary: control_summary_spec(d.sessionability),
            grounding_summary: if d.live {
                "inventory discovered device"@
            } else {
                "historical inventory device"@
            },
            ..s.diagnostics
        },
        session: inventory_session_spec(d, selected),
        ..s
    }
}

/// Index of the first option with the given id, over the options themselves.
pub fn find_option_index(options: &Vec<CaptureSourceOption>, id: &str) -> (r: Option<usize>)
    ensures
        match r {
            Some(k) => k < options@.len() && option_index(option_views(options@), id@) == Some(k as int),
            None => option_index(option_views(options@), id@) is None,
        },
{
    let ghost views = option_views(options@);
    let n = options.len();
    let mut i: usize = 0;
    while i < n
        invariant
            n == options@.len(),
            views == option_views(options@),
            i <= n,
            option_index(views.subrange(0, i as int), id@) is None,
        decreases n - i,
    {
        assert(views.subrange(0, i + 1).drop_last() =~= views.subrange(0, i as int));
        if crate::text::same_text(options[i].source_id.as_str(), id) {
            proof {
                assert(option_index(views.subrange(0, i + 1), id@) == Some(i as int));
                lemma_option_index_prefix(views, id@, i + 1);
            }
            return Some(i);
        }
        i = i + 1;
    }
    assert(views.subrange(0, n as int) =~= views);
    None
}

proof fn lemma_option_index_prefix(options: Seq<SourceOptionView>, id: Seq<char>, k: int)
    requires
        0 <= k <= options.len(),
        option_index(options.subrange(0, k), id) is Some,
    ensures
        option_index(options, id) == option_index(options.subrange(0, k), id),
    decreases options.len() - k,
{
    if k < options.len() {
        assert(options.subrange(0, k + 1).drop_last() =~= options.subrange(0, k));
        lemma_option_index_prefix(options, id, k + 1);
    } else {
        assert(options.subrange(0, k) =~= options);
    }
}

proof fn lemma_option_index_bound(options: Seq<SourceOptionView>, id: Seq<char>)
    ensures
        option_index(options, id) matches Some(k) ==> 0 <= k < options.len() && options[k].source_id == id,
    decreases options.len(),
{
    if options.len() > 0 {
        lemma_option_index_bound(options.drop_last(), id);
    }
}

proof fn lemma_mirror_index_bound(inventory: Seq<DeviceView>, source_id: Seq<char>)
    ensures
        mirror_index(inventory, source_id) matches Some(k) ==> 0 <= k < inventory.len()
            && inventory[k].mirror_source_id == Some(source_id),
    decreases inventory.len(),
{
    if inventory.len() > 0 {
        lemma_mirror_index_bound(inventory.drop_last(), source_id);
    }
}

proof fn lemma_mirror_index_prefix(inventory: Seq<DeviceView>, source_id: Seq<char>, k: int)
    requires
        0 <= k <= inventory.len(),
        mirror_index(inventory.subrange(0, k), source_id) is Some,
    ensures
        mirror_index(inventory, source_id) == mirror_index(inventory.subrange(0, k), source_id),
    decreases inventory.len() - k,
{
    if k < inventory.len() {
        assert(inventory.subrange(0, k + 1).drop_last() =~= inventory.subrange(0, k));
        lemma_mirror_index_prefix(inventory, source_id, k + 1);
    } else {
        assert(inventory.subrange(0, k) =~= inventory);
    }
}

/// A copy of the first option with the given id, if any.
pub fn pick_option(options: &Vec<CaptureSourceOption>, id: &Option<String>) -> (r: Option<CaptureSourceOption>)
    ensures
        opt_option_view(r) == find_option(option_views(options@), crate::inventory::model::opt_view(*id)),
{
    match id {
        Some(i) => match find_option_index(options, i.as_str()) {
            Some(k) => Some(options[k].clone()),
            None => None,
        },
        None => None,
    }
}

impl HostDesktopApp {
    /// A source option named after the first row that shows it, else after
    /// `fallback`.
    pub fn capture_source_option(&self, source_id: &str, fallback_name: &str) -> (r: CaptureSourceOption)
        ensures
            r@ == source_option_spec(self@.inventory, source_id@, fallback_name@),
    {
        let devices = &self.inventory_snapshot.devices;
        let ghost inv = self@.inventory;
        let n = devices.len();
        let mut i: usize = 0;
        while i < n
            invariant
                n == devices@.len(),
                inv == self@.inventory,
                inv == crate::inventory::model::device_views(devices@),
                i <= n,
                mirror_index(inv.subrange(0, i as int), source_id@) is None,
            decreases n - i,
        {
            assert(inv.subrange(0, i + 1).drop_last() =~= inv.subrange(0, i as int));
            assert(inv[i as int] == devices@[i as int]@);
            let found = match &devices[i].mirror_source_id {
                Some(m) => crate::text::same_text(m.as_str(), source_id),
                None => false,
            };
            if found {
                proof {
                    assert(inv.subrange(0, i + 1).last() == inv[i as int]);
                    assert(inv[i as int].mirror_source_id == Some(source_id@));
                    assert(mirror_index(inv.subrange(0, i + 1), source_id@) == Some(i as int));
                    lemma_mirror_index_prefix(inv, source_id@, i + 1);
                }
                return CaptureSourceOption::new(source_id, devices[i].display_name.as_str());
            }
            i = i + 1;
        }
        assert(inv.subrange(0, n as int) =~= inv);
        CaptureSourceOption::new(source_id, fallback_name)
    }

    /// The sources offered for a row: its own mirror source if it has one,
    /// else the sources of all live rows.
    pub fn capture_sources_for_device(&self, device: &InventoryDevice) -> (r: Vec<CaptureSourceOption>)
        ensures
            option_views(r@) == sources_for_device_spec(self@.inventory, device@),
    {
        if let Some(source_id) = &device.mirror_source_id {
            let option = self.capture_source_option(source_id.as_str(), device.display_name.as_str());
            let mut r: Vec<CaptureSourceOption> = Vec::new();
            r.push(option);
            assert(option_views(r@) =~= seq![option@]);
            return r;
        }
        let devices = &self.inventory_snapshot.devices;
        let ghost inv = self@.inventory;
        let n = devices.len();
        let mut r: Vec<CaptureSourceOption> = Vec::new();
        let mut i: usize = 0;
        while i < n
            invariant
                n == devices@.len(),
                inv == self@.inventory,
                inv == crate::inventory::model::device_views(devices@),
                i <= n,
                option_views(r@) == live_sources(inv, i as int),
            decreases n - i,
        {
            let candidate = &devices[i];
            assert(inv[i as int] == candidate@);
            if candidate.live {
                if let Some(source_id) = &candidate.mirror_source_id {
                    let seen = find_option_index(&r, source_id.as_str());
                    proof {
                        lemma_option_index_bound(option_views(r@), source_id@);
                        if seen is Some {
                            let k = seen->0 as int;
                            assert(option_ids(option_views(r@))[k] == source_id@);
                        }
                        if option_ids(option_views(r@)).contains(source_id@) {
                            let k = choose|k: int|
                                0 <= k < option_ids(option_views(r@)).len()
                                    && option_ids(option_views(r@))[k] == source_id@;
                            assert(option_views(r@)[k].source_id == source_id@);
                            lemma_option_index_some(option_views(r@), source_id@, k);
                        }
                    }
                    if seen.is_none() {
                        let option = self.capture_source_option(
                            source_id.as_str(),
                            candidate.display_name.as_str(),
                        );
                        let ghost before = r@;
                        r.push(option);
                        assert(option_views(r@) =~= option_views(before).push(option@));
                    }
                }
            }
            i = i + 1;
        }
        r
    }

    /// The source chosen for a row: the row's own mirror source, else the
    /// one chosen before, among the offered sources.
    fn inventory_selected_source(&self, capture_sources: &Vec<CaptureSourceOption>, device: &InventoryDevice) -> (r: Option<CaptureSourceOption>)
        ensures
            opt_option_view(r) == (match find_option(option_views(capture_sources@), device@.mirror_source_id) {
                Some(o) => Some(o),
                None => find_option(option_views(capture_sources@), self@.detail.active_source_id),
            }),
    {
        match pick_option(capture_sources, &device.mirror_source_id) {
            Some(source) => Some(source),
            None => pick_option(capture_sources, &self.device_detail.active_source_id),
        }
    }

    /// Shows an inventory row in the detail, session and diagnostics panes.
    pub fn apply_inventory_detail(&mut self, device: &InventoryDevice)
        ensures
            keeps_runtime(old(self)@, final(self)@),
            final(self)@ == inventory_detail_spec(old(self)@, device@),
    {
        proof {
            reveal(inventory_detail_spec);
        }
        let capture_sources = self.capture_sources_for_device(device);
        let selected_source = self.inventory_selected_source(&capture_sources, device);
        let ghost selected = opt_option_view(selected_source);
        let active_source_id = match &selected_source {
            Some(source) => Some(source.source_id.clone()),
            None => None,
        };
        let notes = inventory_notes(device);
        self.device_detail = DeviceDetailViewModel {
            device_name: device.display_name.clone(),
            capture_sources,
            active_source_id,
            control_checklist: ControlSetupChecklist {
                items: crate::inventory::model::copy_texts(&device.reasons),
            },
            inventory_notes: notes,
        };
        self.diagnostics.host_error = None;
        self.diagnostics.control_summary = inventory_control_summary(device.sessionability);
        self.diagnostics.grounding_summary = if device.live {
            crate::text::owned("inventory discovered device")
        } else {
            crate::text::owned("historical inventory device")
        };
        self.session = inventory_session(device, selected_source);
        proof {
            assert(self@.detail.control_checklist =~= device@.reasons);
            assert(option_id(selected) == opt_view(self.device_detail.active_source_id));
        }
    }
}

/// How ready a row's control path is, in words.
pub open spec fn control_summary_spec(sessionability: Sessionability) -> Seq<char> {
    match sessionability {
        Sessionability::StartableWithPreferredPath => "preferred control ready"@,
        Sessionability::StartableWithFallback => "fallback control ready"@,
        Sessionability::NotStartable => "control path incomplete"@,
        Sessionability::Unknown => "known device only"@,
    }
}

fn inventory_control_summary(sessionability: Sessionability) -> (r: String)
    ensures
        r@ == control_summary_spec(sessionability),
{
    match sessionability {
        Sessionability::StartableWithPreferredPath => crate::text::owned("preferred control ready"),
        Sessionability::StartableWithFallback => crate::text::owned("fallback control ready"),
        Sessionability::NotStartable => crate::text::owned("control path incomplete"),
        Sessionability::Unknown => crate::text::owned("known device only"),
    }
}

/// The session pane of a row: ready to start when a path is startable,
/// blocked with the row's explanation otherwise.
pub open spec fn inventory_session_spec(d: DeviceView, selected: Option<SourceOptionView>) -> SessionView {
    match d.sessionability {
        Sessionability::StartableWithPreferredPath | Sessionability::StartableWithFallback => idle_startable_view(selected),
        Sessionability::NotStartable => blocked_view(
            first_reason_spec(d, "Device is not startable yet"@),
            selected,
        ),
        Sessionability::Unknown => blocked_view(
            first_reason_spec(d, "Known device is waiting for live evidence"@),
            selected,
        ),
    }
}

fn inventory_session(device: &InventoryDevice, selected_source: Option<CaptureSourceOption>) -> (r: SessionViewModel)
    ensures
        r@ == inventory_session_spec(device@, opt_option_view(selected_source)),
{
    match device.sessionability {
        Sessionability::StartableWithPreferredPath | Sessionability::StartableWithFallback => {
            SessionViewModel::idle_startable(selected_source)
        },
        Sessionability::NotStartable => {
            let message = first_reason_or_default(device, "Device is not startable yet");
            SessionViewModel::blocked(message.as_str(), selected_source)
        },
        Sessionability::Unknown => {
            let message = first_reason_or_default(device, "Known device is waiting for live evidence");
            SessionViewModel::blocked(message.as_str(), selected_source)
        },
    }
}

/// How the first option with an id relates to the options' ids.
pub proof fn lemma_option_index_facts(options: Seq<SourceOptionView>, id: Seq<char>)
    ensures
        option_index(options, id) is None <==> !option_ids(options).contains(id),
        option_index(options, id) matches Some(k) ==> 0 <= k < options.len() && options[k].source_id == id,
{
    lemma_option_index_bound(options, id);
    if option_ids(options).contains(id) {
        let k = choose|k: int| 0 <= k < option_ids(options).len() && option_ids(options)[k] == id;
        lemma_option_index_some(options, id, k);
    }
    match option_index(options, id) {
        Some(k) => {
            assert(option_ids(options)[k] == id);
        },
        None => {},
    }
}

proof fn lemma_option_index_some(options: Seq<SourceOptionView>, id: Seq<char>, k: int)
    requires
        0 <= k < options.len(),
        options[k].source_id == id,
    ensures
        option_index(options, id) is Some,
    decreases options.len(),
{
    if k < options.len() - 1 {
        assert(options.drop_last()[k] == options[k]);
        lemma_option_index_some(options.drop_last(), id, k);
    }
}

} // verus!
