//! The device detail pane's data.
use vstd::prelude::*;
use crate::inventory::model::opt_view;
use crate::ordered::texts;
use crate::panels::device_detail::{
    option_views, CaptureSourceOption, ControlSetupChecklist, SourceOptionView,
};

verus! {

/// The device detail pane: the device, its capture sources, the chosen one,
/// the control checklist and notes from the inventory.
#[derive(Debug, PartialEq, Eq)]
pub struct DeviceDetailViewModel {
    pub device_name: String,
    pub capture_sources: Vec<CaptureSourceOption>,
    pub active_source_id: Option<String>,
    pub control_checklist: ControlSetupChecklist,
    pub inventory_notes: Vec<String>,
}

/// The device detail pane, with its texts as characters.
pub struct DetailView {
    pub device_name: Seq<char>,
    pub capture_sources: Seq<SourceOptionView>,
    pub active_source_id: Option<Seq<char>>,
    pub control_checklist: Seq<Seq<char>>,
    pub inventory_notes: Seq<Seq<char>>,
}

impl View for DeviceDetailViewModel {
    type V = DetailView;

    open spec fn view(&self) -> DetailView {
        DetailView {
            device_name: self.device_name@,
            capture_sources: option_views(self.capture_sources@),
            active_source_id: opt_view(self.active_source_id),
            control_checklist: texts(self.control_checklist.items@),
            inventory_notes: texts(self.inventory_notes@),
        }
    }
}

/// Index of the first source with the given id, if any.
pub open spec fn source_index(sources: Seq<CaptureSourceOption>, source_id: Seq<char>) -> Option<int>
    decreases sources.len(),
{
    if sources.len() == 0 {
        None
    } else {
        match source_index(sources.drop_last(), source_id) {
            Some(i) => Some(i),
            None => if sources.last().source_id@ == source_id {
                Some(sources.len() - 1)
            } else {
                None
            },
        }
    }
}

/// Index of the first source with the given id, if any.
pub fn find_source(sources: &Vec<CaptureSourceOption>, source_id: &str) -> (r: Option<usize>)
    ensures
        match r {
            Some(i) => i < sources@.len() && source_index(sources@, source_id@) == Some(i as int),
            None => source_index(sources@, source_id@) is None,
        },
{
    let n = sources.len();
    let mut i: usize = 0;
    while i < n
        invariant
            n == sources@.len(),
            i <= n,
            source_index(sources@.subrange(0, i as int), source_id@) is None,
        decreases n - i,
    {
        assert(sources@.subrange(0, i + 1).drop_last() =~= sources@.subrange(0, i as int));
        if crate::text::same_text(sources[i].source_id.as_str(), source_id) {
            proof {
                lemma_source_index_prefix(sources@, source_id@, i as int + 1);
            }
            return Some(i);
        }
        i = i + 1;
    }
    assert(sources@.subrange(0, n as int) =~= sources@);
    None
}

/// Once a prefix holds the id, the whole sequence finds it at the same place.
pub proof fn lemma_source_index_prefix(sources: Seq<CaptureSourceOption>, source_id: Seq<char>, k: int)
    requires
        0 <= k <= sources.len(),
        source_index(sources.subrange(0, k), source_id) is Some,
    ensures
        source_index(sources, source_id) == source_index(sources.subrange(0, k), source_id),
    decreases sources.len() - k,
{
    if k < sources.len() {
        assert(sources.subrange(0, k + 1).drop_last() =~= sources.subrange(0, k));
        lemma_source_index_prefix(sources, source_id, k + 1);
    } else {
        assert(sources.subrange(0, k) =~= sources);
    }
}

impl DeviceDetailViewModel {
    /// A copy of the first capture source with the given id.
    pub fn capture_source(&self, source_id: &str) -> (r: Option<CaptureSourceOption>)
        ensures
            match source_index(self.capture_sources@, source_id@) {
                Some(i) => r == Some(self.capture_sources@[i]),
                None => r is None,
            },
    {
        match find_source(&self.capture_sources, source_id) {
            Some(i) => Some(self.capture_sources[i].clone()),
            None => None,
        }
    }
}

} // verus!
