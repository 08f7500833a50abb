//! The session window's actions.
use vstd::prelude::*;
use crate::protocol::ControlInputEvent;

verus! {

/// What the operator asked of the session window or menu.
#[derive(Debug, PartialEq, Eq)]
pub enum SessionAction {
    NoAction,
    Start,
    Stop,
    ControlInput(Vec<ControlInputEvent>),
}

} // verus!
