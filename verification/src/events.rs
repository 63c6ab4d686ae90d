//! A started flow as a sequence of events, and what holds of every such
//! sequence.
//!
//! The three parties that act on a flow's slot run concurrently, but each
//! acts on the slot in one indivisible step, so what happens to a flow is a
//! sequence of such steps in some order. The theorems here hold for every
//! order.

use vstd::prelude::*;
use crate::observer::{after_window_event, is_close, WindowEventKind};
use crate::outcome::Resolution;
use crate::waiter::{after_poll, deadline_passed, wait_step, FlowConfig, WaitStepView};
use crate::watcher::{after_page_load, is_redirect, page_load_ends_window, PageLoadKind};

verus! {

/// Something that happens to a started flow.
pub enum FlowEvent {
    /// The window reports a page load; the redirect watcher handles it.
    PageLoad { kind: PageLoadKind, url: Seq<char> },
    /// The window reports a lifecycle event; the close observer handles it.
    Window { change: WindowEventKind },
    /// The waiter looks at the slot, `elapsed` milliseconds into the flow.
    Poll { elapsed: u64 },
}

/// Whether `event` is the redirect arriving.
pub open spec fn redirects(event: FlowEvent) -> bool {
    event matches FlowEvent::PageLoad { kind, url } && is_redirect(kind, url)
}

/// Whether `event` is the window closing.
pub open spec fn closes(event: FlowEvent) -> bool {
    event matches FlowEvent::Window { change } && is_close(change)
}

/// Whether `event` is the waiter looking at the slot past the deadline.
pub open spec fn expires(event: FlowEvent, config: FlowConfig) -> bool {
    event matches FlowEvent::Poll { elapsed } && deadline_passed(elapsed, config)
}

/// The outcome that `event` records in an empty slot, if it records one.
pub open spec fn resolution_of(event: FlowEvent, config: FlowConfig) -> Option<Resolution> {
    match event {
        FlowEvent::PageLoad { kind, url } => if is_redirect(kind, url) {
            Some(Resolution::Success(url))
        } else {
            None
        },
        FlowEvent::Window { change } => if is_close(change) {
            Some(Resolution::Cancelled)
        } else {
            None
        },
        FlowEvent::Poll { elapsed } => if deadline_passed(elapsed, config) {
            Some(Resolution::TimedOut)
        } else {
            None
        },
    }
}

/// The slot after the party concerned has handled `event`.
pub open spec fn step(slot: Option<Resolution>, event: FlowEvent, config: FlowConfig) -> Option<Resolution> {
    match event {
        FlowEvent::PageLoad { kind, url } => after_page_load(slot, kind, url),
        FlowEvent::Window { change } => after_window_event(slot, change),
        FlowEvent::Poll { elapsed } => after_poll(slot, elapsed, config),
    }
}

/// Whether handling `event` makes the handler ask for the window to be
/// destroyed.
pub open spec fn ends_window(slot: Option<Resolution>, event: FlowEvent, config: FlowConfig) -> bool {
    match event {
        FlowEvent::PageLoad { kind, url } => page_load_ends_window(slot, kind, url),
        FlowEvent::Window { .. } => false,
        FlowEvent::Poll { elapsed } => wait_step(slot, elapsed, config) matches WaitStepView::Finished {
            destroy_window,
            ..
        } && destroy_window,
    }
}

/// The slot after `events` have been handled one after the other.
pub open spec fn run(slot: Option<Resolution>, events: Seq<FlowEvent>, config: FlowConfig) -> Option<
    Resolution,
>
    decreases events.len(),
{
    if events.len() == 0 {
        slot
    } else {
        step(run(slot, events.drop_last(), config), events.last(), config)
    }
}

/// Whether none of `events` would resolve a flow.
pub open spec fn uneventful(events: Seq<FlowEvent>, config: FlowConfig) -> bool {
    forall|i: int| 0 <= i < events.len() ==> (#[trigger] resolution_of(events[i], config)) is None
}

/// An event either leaves an unresolved flow unresolved or resolves it to the
/// outcome that belongs to the event; it leaves a resolved flow alone. The
/// window is asked to go only by the event that resolves the flow, and not
/// when that event is the window closing by itself.
pub proof fn lemma_step_records_first(slot: Option<Resolution>, event: FlowEvent, config: FlowConfig)
    ensures
        slot is Some ==> step(slot, event, config) == slot,
        slot is None ==> step(slot, event, config) == resolution_of(event, config),
        ends_window(slot, event, config) <==> slot is None && (redirects(event) || expires(event, config)),
        resolution_of(event, config) is Some <==> redirects(event) || closes(event) || expires(event, config),
{
}

/// First writer wins: once a flow is resolved, no event and no sequence of
/// events, be it a redirect, a close or a look past the deadline, changes its
/// outcome.
pub proof fn lemma_resolved_is_final(slot: Option<Resolution>, events: Seq<FlowEvent>, config: FlowConfig)
    requires
        slot is Some,
    ensures
        run(slot, events, config) == slot,
    decreases events.len(),
{
    if events.len() > 0 {
        lemma_resolved_is_final(slot, events.drop_last(), config);
        lemma_step_records_first(slot, events.last(), config);
    }
}

/// Events that resolve nothing leave the slot as it was.
pub proof fn lemma_uneventful_changes_nothing(
    slot: Option<Resolution>,
    events: Seq<FlowEvent>,
    config: FlowConfig,
)
    requires
        uneventful(events, config),
    ensures
        run(slot, events, config) == slot,
    decreases events.len(),
{
    if events.len() > 0 {
        let earlier = events.drop_last();
        assert forall|i: int| 0 <= i < earlier.len() implies (#[trigger] resolution_of(
            earlier[i],
            config,
        )) is None by {
            assert(earlier[i] == events[i]);
        }
        lemma_uneventful_changes_nothing(slot, earlier, config);
        assert(resolution_of(events[events.len() - 1], config) is None);
        lemma_step_records_first(slot, events.last(), config);
    }
}

/// Running one sequence of events and then another is running the two joined.
pub proof fn lemma_run_concat(
    slot: Option<Resolution>,
    before: Seq<FlowEvent>,
    after: Seq<FlowEvent>,
    config: FlowConfig,
)
    ensures
        run(slot, before + after, config) == run(run(slot, before, config), after, config),
    decreases after.len(),
{
    if after.len() == 0 {
        assert(before + after == before);
    } else {
        assert((before + after).drop_last() == before + after.drop_last());
        assert((before + after).last() == after.last());
        lemma_run_concat(slot, before, after.drop_last(), config);
    }
}

/// The outcome of a flow is decided by the first event that resolves
/// anything: whatever comes before it changes nothing, and whatever comes
/// after it comes too late. The window is asked to go at that event, unless
/// the event is the window closing by itself.
pub proof fn lemma_first_writer_wins(events: Seq<FlowEvent>, first: int, config: FlowConfig)
    requires
        0 <= first < events.len(),
        uneventful(events.take(first), config),
        resolution_of(events[first], config) is Some,
    ensures
        run(None, events, config) == resolution_of(events[first], config),
        run(None, events.take(first), config) is None,
        ends_window(run(None, events.take(first), config), events[first], config) == !closes(events[first]),
{
    let before = events.take(first);
    let upto = events.take(first + 1);
    let after = events.skip(first + 1);
    lemma_uneventful_changes_nothing(None, before, config);
    assert(upto.drop_last() == before);
    assert(upto.last() == events[first]);
    lemma_step_records_first(None, events[first], config);
    assert(run(None, upto, config) == resolution_of(events[first], config));
    assert(events == upto + after);
    lemma_run_concat(None, upto, after, config);
    lemma_resolved_is_final(run(None, upto, config), after, config);
}

/// Among the events up to and including one that resolves something, there
/// is a first that does. Returns its position.
pub proof fn lemma_first_resolver(events: Seq<FlowEvent>, at: int, config: FlowConfig) -> (first: int)
    requires
        0 <= at < events.len(),
        resolution_of(events[at], config) is Some,
    ensures
        0 <= first <= at,
        uneventful(events.take(first), config),
        resolution_of(events[first], config) is Some,
    decreases at,
{
    if exists|j: int| 0 <= j < at && (#[trigger] resolution_of(events[j], config)) is Some {
        let j = choose|j: int| 0 <= j < at && (#[trigger] resolution_of(events[j], config)) is Some;
        lemma_first_resolver(events, j, config)
    } else {
        assert forall|i: int| 0 <= i < events.take(at).len() implies (#[trigger] resolution_of(
            events.take(at)[i],
            config,
        )) is None by {
            assert(events.take(at)[i] == events[i]);
        }
        at
    }
}

/// If the first event to resolve anything is a navigation that starts towards
/// an address beginning with the redirect prefix, the flow resolves to
/// success with exactly that address, query string and all, and the watcher
/// asks for the window to be destroyed.
pub proof fn lemma_first_redirect_is_the_result(
    events: Seq<FlowEvent>,
    first: int,
    url: Seq<char>,
    config: FlowConfig,
)
    requires
        0 <= first < events.len(),
        uneventful(events.take(first), config),
        events[first] == (FlowEvent::PageLoad { kind: PageLoadKind::Started, url }),
        crate::watcher::redirect_prefix().is_prefix_of(url),
    ensures
        run(None, events, config) == Some(Resolution::Success(url)),
        ends_window(run(None, events.take(first), config), events[first], config),
{
    lemma_first_writer_wins(events, first, config);
}

/// If the redirect arrives before the window closes and before the waiter
/// looks past the deadline, the flow resolves to success, with the address of
/// the first redirect that arrived. Returns the position of that redirect,
/// at which the watcher asks for the window to be destroyed.
pub proof fn lemma_redirect_before_close_and_deadline(
    events: Seq<FlowEvent>,
    at: int,
    config: FlowConfig,
) -> (first: int)
    requires
        0 <= at < events.len(),
        redirects(events[at]),
        forall|j: int| 0 <= j < at ==> !closes(#[trigger] events[j]) && !expires(events[j], config),
    ensures
        0 <= first <= at,
        (events[first] matches FlowEvent::PageLoad { kind, url } && is_redirect(kind, url) && run(
            None,
            events,
            config,
        ) == Some(Resolution::Success(url))),
        forall|j: int| 0 <= j < first ==> !redirects(#[trigger] events[j]),
        ends_window(run(None, events.take(first), config), events[first], config),
{
    let first = lemma_first_resolver(events, at, config);
    lemma_first_writer_wins(events, first, config);
    lemma_step_records_first(None, events[first], config);
    assert forall|j: int| 0 <= j < first implies !redirects(#[trigger] events[j]) by {
        assert(events.take(first)[j] == events[j]);
        assert(resolution_of(events.take(first)[j], config) is None);
    }
    first
}

/// If the window closes before any redirect arrives and before the waiter
/// looks past the deadline, the flow resolves to cancelled.
pub proof fn lemma_close_before_redirect_and_deadline(events: Seq<FlowEvent>, at: int, config: FlowConfig)
    requires
        0 <= at < events.len(),
        closes(events[at]),
        forall|j: int| 0 <= j < at ==> !redirects(#[trigger] events[j]) && !expires(events[j], config),
    ensures
        run(None, events, config) == Some(Resolution::Cancelled),
{
    let first = lemma_first_resolver(events, at, config);
    lemma_first_writer_wins(events, first, config);
    lemma_step_records_first(None, events[first], config);
}

/// If neither a redirect nor a close comes before the waiter looks past the
/// deadline, the flow resolves to timed out. Returns the position of the
/// waiter's first look past the deadline, at which it finishes and asks for
/// the window to be destroyed.
pub proof fn lemma_deadline_before_redirect_and_close(
    events: Seq<FlowEvent>,
    at: int,
    config: FlowConfig,
) -> (first: int)
    requires
        0 <= at < events.len(),
        expires(events[at], config),
        forall|j: int| 0 <= j < at ==> !redirects(#[trigger] events[j]) && !closes(events[j]),
    ensures
        0 <= first <= at,
        run(None, events, config) == Some(Resolution::TimedOut),
        (events[first] matches FlowEvent::Poll { elapsed } && wait_step(
            run(None, events.take(first), config),
            elapsed,
            config,
        ) == (WaitStepView::Finished { result: Resolution::TimedOut, destroy_window: true })),
        ends_window(run(None, events.take(first), config), events[first], config),
{
    let first = lemma_first_resolver(events, at, config);
    lemma_first_writer_wins(events, first, config);
    lemma_step_records_first(None, events[first], config);
    first
}

/// Reading is idempotent: however often and whenever the waiter looks at a
/// resolved flow, it finishes with the recorded outcome and leaves the slot
/// as it found it.
pub proof fn lemma_reading_is_idempotent(result: Resolution, elapsed: u64, config: FlowConfig)
    ensures
        wait_step(Some(result), elapsed, config) == (WaitStepView::Finished { result, destroy_window: false }),
        after_poll(Some(result), elapsed, config) == Some(result),
{
}

/// A flow that sees neither a redirect nor a close, and that the waiter has
/// not looked at past the deadline, stays unresolved; as long as the deadline
/// has not passed, the waiter pauses for the polling interval.
pub proof fn lemma_waiting_continues(events: Seq<FlowEvent>, elapsed: u64, config: FlowConfig)
    requires
        uneventful(events, config),
        elapsed <= config.flow_timeout,
    ensures
        run(None, events, config) is None,
        wait_step(run(None, events, config), elapsed, config) == (WaitStepView::Sleep {
            millis: config.poll_interval,
        }),
{
    lemma_uneventful_changes_nothing(None, events, config);
}

} // verus!
