//! The write-once register through which a flow's participants agree on its
//! outcome.

use vstd::prelude::*;
use crate::outcome::{OAuthFlowResult, Resolution};

verus! {

/// A cell that is empty until the first outcome is recorded and holds that
/// outcome from then on.
///
/// The redirect watcher, the close observer and the waiter all hold the same
/// slot. Each may try to record an outcome; only the first attempt on an empty
/// slot takes effect. The slot offers no way to overwrite or clear a value.
#[derive(Debug)]
pub struct ResultSlot {
    value: Option<OAuthFlowResult>,
}

impl View for ResultSlot {
    type V = Option<Resolution>;

    closed spec fn view(&self) -> Option<Resolution> {
        match self.value {
            Some(outcome) => Some(outcome@),
            None => None,
        }
    }
}

/// The contents of a slot after an attempt to record `outcome` in it.
pub open spec fn recorded(slot: Option<Resolution>, outcome: Resolution) -> Option<Resolution> {
    if slot is Some {
        slot
    } else {
        Some(outcome)
    }
}

/// An [`Option<OAuthFlowResult>`] as a mathematical value.
pub open spec fn outcome_view(outcome: Option<OAuthFlowResult>) -> Option<Resolution> {
    match outcome {
        Some(o) => Some(o@),
        None => None,
    }
}

impl ResultSlot {
    /// An empty slot.
    pub fn new() -> (slot: ResultSlot)
        ensures
            slot@ is None,
    {
        ResultSlot { value: None }
    }

    /// Whether an outcome has been recorded.
    pub fn is_resolved(&self) -> (resolved: bool)
        ensures
            resolved == (self@ is Some),
    {
        self.value.is_some()
    }

    /// Records `outcome` if the slot is empty and leaves the slot untouched
    /// otherwise. Returns whether `outcome` was recorded.
    pub fn resolve(&mut self, outcome: OAuthFlowResult) -> (recorded_now: bool)
        ensures
            final(self)@ == recorded(old(self)@, outcome@),
            recorded_now == (old(self)@ is None),
    {
        if self.value.is_some() {
            false
        } else {
            self.value = Some(outcome);
            true
        }
    }

    /// A copy of the recorded outcome, if there is one. Reading does not
    /// change the slot.
    pub fn get(&self) -> (outcome: Option<OAuthFlowResult>)
        ensures
            outcome_view(outcome) == self@,
    {
        match &self.value {
            Some(o) => Some(o.clone()),
            None => None,
        }
    }
}

/// Two attempts in a row leave what the first one left: the second writer
/// never wins.
pub proof fn lemma_second_writer_loses(slot: Option<Resolution>, first: Resolution, second: Resolution)
    ensures
        recorded(recorded(slot, first), second) == recorded(slot, first),
{
}

} // verus!
