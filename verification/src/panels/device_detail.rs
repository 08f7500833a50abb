//! The device detail pane's data: the control setup checklist and the capture
//! sources that can be chosen.
use vstd::prelude::*;
use crate::text::has_prefix;

verus! {

/// What the operator has to set up on the device before control works.
#[derive(Debug, PartialEq, Eq)]
pub struct ControlSetupChecklist {
    pub items: Vec<String>,
}

/// A capture source as the operator can choose it.
#[derive(Debug, PartialEq, Eq)]
pub struct CaptureSourceOption {
    pub source_id: String,
    pub display_name: String,
}

/// The characters of a [`CaptureSourceOption`].
pub struct SourceOptionView {
    pub source_id: Seq<char>,
    pub display_name: Seq<char>,
}

impl View for CaptureSourceOption {
    type V = SourceOptionView;

    open spec fn view(&self) -> SourceOptionView {
        SourceOptionView { source_id: self.source_id@, display_name: self.display_name@ }
    }
}

/// The views of a sequence of source options.
pub open spec fn option_views(s: Seq<CaptureSourceOption>) -> Seq<SourceOptionView> {
    s.map_values(|o: CaptureSourceOption| o@)
}

/// The view of an optional source option.
pub open spec fn opt_option_view(o: Option<CaptureSourceOption>) -> Option<SourceOptionView> {
    match o {
        Some(v) => Some(v@),
        None => None,
    }
}

/// What the operator did in the device detail pane.
#[derive(Debug, PartialEq, Eq)]
pub enum DeviceDetailAction {
    NoAction,
    SelectCaptureSource(String),
}

/// The label of a source: `Window: ` and its name for window sources (ids that
/// begin with `window:` or `window-`), `Direct: ` and its name otherwise.
pub open spec fn source_label_spec(source_id: Seq<char>, display_name: Seq<char>) -> Seq<char> {
    if has_prefix(source_id, "window:"@) || has_prefix(source_id, "window-"@) {
        "Window: "@ + display_name
    } else {
        "Direct: "@ + display_name
    }
}

/// The checklist for pointer control over Bluetooth.
pub open spec fn pointer_mode_items() -> Seq<Seq<char>> {
    seq![
        "Enable AssistiveTouch on the iPhone or iPad"@,
        "Enable Full Keyboard Access for keyboard navigation"@,
        "Pair the host over Bluetooth"@,
    ]
}

impl ControlSetupChecklist {
    /// The checklist for pointer control over Bluetooth: AssistiveTouch, Full
    /// Keyboard Access, and pairing.
    pub fn for_pointer_mode() -> (r: Self)
        ensures
            crate::ordered::texts(r.items@) == pointer_mode_items(),
            r.items@.len() == 3,
            r.items@[0]@ == "Enable AssistiveTouch on the iPhone or iPad"@,
            r.items@[1]@ == "Enable Full Keyboard Access for keyboard navigation"@,
            r.items@[2]@ == "Pair the host over Bluetooth"@,
    {
        let mut items: Vec<String> = Vec::new();
        items.push(crate::text::owned("Enable AssistiveTouch on the iPhone or iPad"));
        items.push(crate::text::owned("Enable Full Keyboard Access for keyboard navigation"));
        items.push(crate::text::owned("Pair the host over Bluetooth"));
        assert(crate::ordered::texts(items@) =~= pointer_mode_items());
        ControlSetupChecklist { items }
    }
}

impl Clone for ControlSetupChecklist {
    fn clone(&self) -> (r: Self)
        ensures
            r.items@ == self.items@,
    {
        ControlSetupChecklist { items: crate::inventory::model::copy_texts(&self.items) }
    }
}

impl CaptureSourceOption {
    /// A source option with the given id and name.
    pub fn new(source_id: &str, display_name: &str) -> (r: Self)
        ensures
            r.source_id@ == source_id@,
            r.display_name@ == display_name@,
    {
        CaptureSourceOption {
            source_id: crate::text::owned(source_id),
            display_name: crate::text::owned(display_name),
        }
    }

    /// The source's label, which says whether it is a window or a direct
    /// receiver.
    pub fn label(&self) -> (r: String)
        ensures
            r@ == source_label_spec(self.source_id@, self.display_name@),
    {
        if crate::text::starts_with_text(self.source_id.as_str(), "window:")
            || crate::text::starts_with_text(self.source_id.as_str(), "window-") {
            crate::text::joined("Window: ", self.display_name.as_str())
        } else {
            crate::text::joined("Direct: ", self.display_name.as_str())
        }
    }
}

impl Clone for CaptureSourceOption {
    fn clone(&self) -> (r: Self)
        ensures
            r == *self,
    {
        CaptureSourceOption {
            source_id: self.source_id.clone(),
            display_name: self.display_name.clone(),
        }
    }
}

} // verus!
