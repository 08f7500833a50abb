//! The startup pane's lines and actions.
use vstd::prelude::*;
use crate::view_models::startup::{DirectReceiverViewModel, StartupItem};

verus! {

/// What the operator asked of the startup pane.
#[derive(Debug, Clone, Copy, PartialEq, Eq, Structural)]
pub enum StartupAction {
    NoAction,
    StartDirectReceiver,
}

/// A plugin's line: its label, status and detail.
pub fn item_line(item: &StartupItem) -> (r: String)
    ensures
        r@ == item.label@ + " | "@ + item.status@ + " | "@ + item.detail@,
{
    let mut line = crate::text::joined3(item.label.as_str(), " | ", item.status.as_str());
    line.append(" | ");
    line.append(item.detail.as_str());
    line
}

/// The direct receiver's line: its status and detail.
pub fn direct_receiver_line(receiver: &DirectReceiverViewModel) -> (r: String)
    ensures
        r@ == "Direct Receiver | "@ + receiver.status@ + " | "@ + receiver.detail@,
{
    let mut line = crate::text::joined("Direct Receiver | ", receiver.status.as_str());
    line.append(" | ");
    line.append(receiver.detail.as_str());
    line
}

} // verus!
