//! The close observer: noticing that the user gave up.

use vstd::prelude::*;
use crate::outcome::{OAuthFlowResult, Resolution};
use crate::slot::{recorded, ResultSlot};

verus! {

/// What the sign-in window reports about its own lifecycle.
#[derive(Clone, Copy, Debug, PartialEq, Eq)]
pub enum WindowEventKind {
    /// The user asked for the window to close.
    CloseRequested,
    /// The window is gone.
    Destroyed,
    /// Anything else: moved, resized, focused and so on.
    Other,
}

/// Whether a window event means that the window is closing or closed.
pub open spec fn is_close(kind: WindowEventKind) -> bool {
    kind is CloseRequested || kind is Destroyed
}

/// The slot after the observer has seen a window event.
pub open spec fn after_window_event(slot: Option<Resolution>, kind: WindowEventKind) -> Option<Resolution> {
    if is_close(kind) {
        recorded(slot, Resolution::Cancelled)
    } else {
        slot
    }
}

/// Handles one lifecycle event of the sign-in window.
///
/// A close resolves an unresolved flow to cancelled. A close that follows a
/// resolution (the window closing because the redirect was seen, or because
/// the deadline passed) changes nothing, and neither does any other event.
pub fn on_window_event(slot: &mut ResultSlot, kind: WindowEventKind)
    ensures
        final(slot)@ == after_window_event(old(slot)@, kind),
{
    match kind {
        WindowEventKind::CloseRequested | WindowEventKind::Destroyed => {
            slot.resolve(OAuthFlowResult::Cancelled);
        },
        WindowEventKind::Other => {},
    }
}

} // verus!
