//! The waiter: checking on the flow at intervals until it is resolved or its
//! deadline has passed.

use vstd::prelude::*;
use crate::outcome::{OAuthFlowResult, Resolution};
use crate::slot::{recorded, ResultSlot};

verus! {

/// How often the waiter looks, and how long it is prepared to wait.
#[derive(Clone, Copy, Debug, PartialEq, Eq)]
pub struct FlowConfig {
    /// Pause between two looks at the slot, in milliseconds.
    pub poll_interval: u64,
    /// Time after which an unresolved flow is given up, in milliseconds from
    /// the start of the flow.
    pub flow_timeout: u64,
}

/// The default pause between two looks: a tenth of a second.
pub const DEFAULT_POLL_INTERVAL: u64 = 100;

/// The default deadline: five minutes.
pub const DEFAULT_FLOW_TIMEOUT: u64 = 300_000;

impl Default for FlowConfig {
    fn default() -> (config: FlowConfig)
        ensures
            config.poll_interval == 100,
            config.flow_timeout == 300_000,
    {
        FlowConfig { poll_interval: DEFAULT_POLL_INTERVAL, flow_timeout: DEFAULT_FLOW_TIMEOUT }
    }
}

/// What the waiter does after a look at the slot.
#[derive(Debug, PartialEq, Eq)]
pub enum WaitStep {
    /// The flow is over. `destroy_window` is set when the host still has to
    /// destroy the sign-in window, should it exist.
    Finished { result: OAuthFlowResult, destroy_window: bool },
    /// Nothing yet: pause for `millis` milliseconds, then look again.
    Sleep { millis: u64 },
}

/// A [`WaitStep`] as a mathematical value.
pub enum WaitStepView {
    Finished { result: Resolution, destroy_window: bool },
    Sleep { millis: u64 },
}

impl View for WaitStep {
    type V = WaitStepView;

    open spec fn view(&self) -> WaitStepView {
        match self {
            WaitStep::Finished { result, destroy_window } => WaitStepView::Finished {
                result: result@,
                destroy_window: *destroy_window,
            },
            WaitStep::Sleep { millis } => WaitStepView::Sleep { millis: *millis },
        }
    }
}

/// Whether the deadline has passed once `elapsed` milliseconds have gone by.
/// The deadline itself is still in time.
pub open spec fn deadline_passed(elapsed: u64, config: FlowConfig) -> bool {
    elapsed > config.flow_timeout
}

/// The slot after the waiter has looked at it.
pub open spec fn after_poll(slot: Option<Resolution>, elapsed: u64, config: FlowConfig) -> Option<Resolution> {
    if deadline_passed(elapsed, config) {
        recorded(slot, Resolution::TimedOut)
    } else {
        slot
    }
}

/// What the waiter does after looking at `slot`. A recorded outcome is
/// returned whatever the clock says; only an empty slot is held against the
/// deadline.
pub open spec fn wait_step(slot: Option<Resolution>, elapsed: u64, config: FlowConfig) -> WaitStepView {
    match slot {
        Some(result) => WaitStepView::Finished { result, destroy_window: false },
        None => if deadline_passed(elapsed, config) {
            WaitStepView::Finished { result: Resolution::TimedOut, destroy_window: true }
        } else {
            WaitStepView::Sleep { millis: config.poll_interval }
        },
    }
}

/// Looks at the slot once.
///
/// `elapsed` is the time since the flow started, in whole milliseconds,
/// any fraction rounded up.
///
/// * If the flow is resolved, the waiter finishes with the recorded outcome.
/// * Otherwise, if the deadline has passed, the flow is resolved to timed
///   out, and the waiter finishes with that and asks for the window to be
///   destroyed. This needs no event from the window.
/// * Otherwise the waiter is to pause for the polling interval and look
///   again.
pub fn poll(slot: &mut ResultSlot, elapsed: u64, config: &FlowConfig) -> (step: WaitStep)
    ensures
        final(slot)@ == after_poll(old(slot)@, elapsed, *config),
        step@ == wait_step(old(slot)@, elapsed, *config),
{
    match slot.get() {
        Some(result) => WaitStep::Finished { result, destroy_window: false },
        None => if elapsed > config.flow_timeout {
            slot.resolve(OAuthFlowResult::TimedOut);
            WaitStep::Finished { result: OAuthFlowResult::TimedOut, destroy_window: true }
        } else {
            WaitStep::Sleep { millis: config.poll_interval }
        },
    }
}

} // verus!
