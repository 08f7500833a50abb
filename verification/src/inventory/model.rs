//! What the host knows about the devices around it: one observation per
//! provider, merged into inventory rows.
use vstd::prelude::*;
use crate::ordered::texts;

verus! {

/// The provider that reported a device.
#[derive(Debug, Clone, Copy, PartialEq, Eq, Structural, PartialOrd, Ord, Hash)]
pub enum InventoryEvidenceSource {
    Bluetooth,
    Mirror,
    Known,
}

/// How far a capture or control path has been established for a device.
#[derive(Debug, PartialEq, Eq)]
pub enum CapabilityState {
    Unavailable,
    Discovered,
    Ready,
    Blocked(String),
}

/// Whether, and by which control path, a session can be started for a device.
#[derive(Debug, Clone, Copy, PartialEq, Eq, Structural)]
pub enum Sessionability {
    NotStartable,
    StartableWithPreferredPath,
    StartableWithFallback,
    Unknown,
}

/// One provider's report of one device.
#[derive(Debug, PartialEq, Eq)]
pub struct DeviceObservation {
    pub provider: InventoryEvidenceSource,
    pub stable_id: Option<String>,
    pub known_device_id: Option<String>,
    pub display_name: String,
    pub mirror_source_id: Option<String>,
    pub live: bool,
    pub capture_state: CapabilityState,
    pub preferred_control_state: CapabilityState,
    pub fallback_control_state: CapabilityState,
    pub reasons: Vec<String>,
}

/// One inventory row: the merge of every observation of one device.
#[derive(Debug, PartialEq, Eq)]
pub struct InventoryDevice {
    pub inventory_id: String,
    pub display_name: String,
    pub stable_id: Option<String>,
    pub known_device_id: Option<String>,
    pub mirror_source_id: Option<String>,
    pub live: bool,
    pub evidence_sources: Vec<InventoryEvidenceSource>,
    pub capture_state: CapabilityState,
    pub preferred_control_state: CapabilityState,
    pub fallback_control_state: CapabilityState,
    pub sessionability: Sessionability,
    pub reasons: Vec<String>,
}

/// The inventory rows of one refresh.
#[derive(Debug, PartialEq, Eq)]
pub struct InventorySnapshot {
    pub devices: Vec<InventoryDevice>,
}

/// A capability state with its blocking reason as characters.
pub enum CapabilityView {
    Unavailable,
    Discovered,
    Ready,
    Blocked(Seq<char>),
}

/// The mathematical content of a [`DeviceObservation`].
pub struct ObservationView {
    pub provider: InventoryEvidenceSource,
    pub stable_id: Option<Seq<char>>,
    pub known_device_id: Option<Seq<char>>,
    pub display_name: Seq<char>,
    pub mirror_source_id: Option<Seq<char>>,
    pub live: bool,
    pub capture_state: CapabilityView,
    pub preferred_control_state: CapabilityView,
    pub fallback_control_state: CapabilityView,
    pub reasons: Seq<Seq<char>>,
}

/// The mathematical content of an [`InventoryDevice`].
pub struct DeviceView {
    pub inventory_id: Seq<char>,
    pub display_name: Seq<char>,
    pub stable_id: Option<Seq<char>>,
    pub known_device_id: Option<Seq<char>>,
    pub mirror_source_id: Option<Seq<char>>,
    pub live: bool,
    pub evidence_sources: Seq<InventoryEvidenceSource>,
    pub capture_state: CapabilityView,
    pub preferred_control_state: CapabilityView,
    pub fallback_control_state: CapabilityView,
    pub sessionability: Sessionability,
    pub reasons: Seq<Seq<char>>,
}

/// The characters of an optional string.
pub open spec fn opt_view(s: Option<String>) -> Option<Seq<char>> {
    match s {
        Some(v) => Some(v@),
        None => None,
    }
}

impl View for CapabilityState {
    type V = CapabilityView;

    open spec fn view(&self) -> CapabilityView {
        match self {
            CapabilityState::Unavailable => CapabilityView::Unavailable,
            CapabilityState::Discovered => CapabilityView::Discovered,
            CapabilityState::Ready => CapabilityView::Ready,
            CapabilityState::Blocked(reason) => CapabilityView::Blocked(reason@),
        }
    }
}

impl View for DeviceObservation {
    type V = ObservationView;

    open spec fn view(&self) -> ObservationView {
        ObservationView {
            provider: self.provider,
            stable_id: opt_view(self.stable_id),
            known_device_id: opt_view(self.known_device_id),
            display_name: self.display_name@,
            mirror_source_id: opt_view(self.mirror_source_id),
            live: self.live,
            capture_state: self.capture_state@,
            preferred_control_state: self.preferred_control_state@,
            fallback_control_state: self.fallback_control_state@,
            reasons: texts(self.reasons@),
        }
    }
}

impl View for InventoryDevice {
    type V = DeviceView;

    open spec fn view(&self) -> DeviceView {
        DeviceView {
            inventory_id: self.inventory_id@,
            display_name: self.display_name@,
            stable_id: opt_view(self.stable_id),
            known_device_id: opt_view(self.known_device_id),
            mirror_source_id: opt_view(self.mirror_source_id),
            live: self.live,
            evidence_sources: self.evidence_sources@,
            capture_state: self.capture_state@,
            preferred_control_state: self.preferred_control_state@,
            fallback_control_state: self.fallback_control_state@,
            sessionability: self.sessionability,
            reasons: texts(self.reasons@),
        }
    }
}

/// The views of a sequence of observations.
pub open spec fn observation_views(s: Seq<DeviceObservation>) -> Seq<ObservationView> {
    s.map_values(|o: DeviceObservation| o@)
}

/// The views of a sequence of inventory rows.
pub open spec fn device_views(s: Seq<InventoryDevice>) -> Seq<DeviceView> {
    s.map_values(|d: InventoryDevice| d@)
}

impl Clone for CapabilityState {
    fn clone(&self) -> (r: Self)
        ensures
            r == *self,
    {
        match self {
            CapabilityState::Unavailable => CapabilityState::Unavailable,
            CapabilityState::Discovered => CapabilityState::Discovered,
            CapabilityState::Ready => CapabilityState::Ready,
            CapabilityState::Blocked(reason) => CapabilityState::Blocked(reason.clone()),
        }
    }
}

/// Copies of every string of `v`.
pub fn copy_texts(v: &Vec<String>) -> (r: Vec<String>)
    ensures
        r@ == v@,
{
    let mut r: Vec<String> = Vec::new();
    let mut i: usize = 0;
    while i < v.len()
        invariant
            i <= v@.len(),
            r@ == v@.subrange(0, i as int),
        decreases v@.len() - i,
    {
        r.push(v[i].clone());
        assert(r@ =~= v@.subrange(0, i + 1));
        i = i + 1;
    }
    assert(r@ =~= v@);
    r
}

impl Clone for DeviceObservation {
    fn clone(&self) -> (r: Self)
        ensures
            r@ == self@,
    {
        DeviceObservation {
            provider: self.provider,
            stable_id: crate::text::copy_opt(&self.stable_id),
            known_device_id: crate::text::copy_opt(&self.known_device_id),
            display_name: self.display_name.clone(),
            mirror_source_id: crate::text::copy_opt(&self.mirror_source_id),
            live: self.live,
            capture_state: self.capture_state.clone(),
            preferred_control_state: self.preferred_control_state.clone(),
            fallback_control_state: self.fallback_control_state.clone(),
            reasons: copy_texts(&self.reasons),
        }
    }
}

impl Clone for InventoryDevice {
    fn clone(&self) -> (r: Self)
        ensures
            r@ == self@,
    {
        let mut sources: Vec<InventoryEvidenceSource> = Vec::new();
        let mut i: usize = 0;
        while i < self.evidence_sources.len()
            invariant
                i <= self.evidence_sources@.len(),
                sources@ == self.evidence_sources@.subrange(0, i as int),
            decreases self.evidence_sources@.len() - i,
        {
            sources.push(self.evidence_sources[i]);
            assert(sources@ =~= self.evidence_sources@.subrange(0, i + 1));
            i = i + 1;
        }
        assert(sources@ =~= self.evidence_sources@);
        InventoryDevice {
            inventory_id: self.inventory_id.clone(),
            display_name: self.display_name.clone(),
            stable_id: crate::text::copy_opt(&self.stable_id),
            known_device_id: crate::text::copy_opt(&self.known_device_id),
            mirror_source_id: crate::text::copy_opt(&self.mirror_source_id),
            live: self.live,
            evidence_sources: sources,
            capture_state: self.capture_state.clone(),
            preferred_control_state: self.preferred_control_state.clone(),
            fallback_control_state: self.fallback_control_state.clone(),
            sessionability: self.sessionability,
            reasons: copy_texts(&self.reasons),
        }
    }
}

impl Default for InventorySnapshot {
    fn default() -> (r: Self)
        ensures
            r.devices@.len() == 0,
    {
        InventorySnapshot { devices: Vec::new() }
    }
}

} // verus!
