//! What holds of the subscriber over whole runs, proved from the model.

use vstd::prelude::*;
use crate::context::innermost;
use crate::model::{accumulated, elapsed, event_at, id_after, Signal, SubscriberView, LEN_LIMIT};
use crate::record::{EventView, SiteView};
use crate::visitor::Attributes;

verus! {

/// A span is created with the span that its thread entered last as parent,
/// and without a parent where the thread is inside of no span. The same holds
/// of an event.
pub proof fn law_parent_is_innermost(
    state: SubscriberView,
    entered: Seq<u64>,
    site: SiteView,
    values: Attributes,
    now: u64,
)
    ensures
        state.created(entered, site, values, now).parent_id == innermost(entered),
        state.admits(values, site.level) ==> {
            let next = state.after_new_span(entered, site, values, now);
            next.spans.contains_key(state.next_id) && next.spans[state.next_id].parent_id
                == innermost(entered)
        },
        event_at(site, values, entered).parent_id == innermost(entered),
        entered.len() == 0 ==> innermost(entered) is None,
        entered.len() > 0 ==> innermost(entered) == Some(entered[entered.len() - 1]),
{
}

/// Creating a span uses up exactly one id, whether or not the span is stored:
/// short of the end of the 64-bit range the counter grows by one.
pub proof fn law_ids_increase(
    state: SubscriberView,
    entered: Seq<u64>,
    site: SiteView,
    values: Attributes,
    now: u64,
)
    requires
        state.next_id < u64::MAX,
    ensures
        state.after_new_span(entered, site, values, now).next_id == state.next_id + 1,
        id_after(state.next_id) > state.next_id,
{
}

/// Every callback keeps the invariant of the state: a span stays under its
/// own id and never keeps more than [`LEN_LIMIT`] events.
pub proof fn law_invariant_is_kept(
    state: SubscriberView,
    entered: Seq<u64>,
    site: SiteView,
    values: Attributes,
    event: EventView,
    id: u64,
    now: u64,
)
    requires
        state.wf(),
    ensures
        state.after_new_span(entered, site, values, now).wf(),
        state.after_record(id, values).wf(),
        state.after_enter(id, now).wf(),
        state.after_exit(id, now).wf(),
        state.after_event(event).wf(),
        state.after_close(id).wf(),
{
}

/// A span that keeps [`LEN_LIMIT`] events keeps no more: a further event for
/// it is handed on by itself with the diagnostic `TooManyEvents`, and the
/// state does not change. A span with fewer events keeps the event as its
/// last one, without a diagnostic.
pub proof fn law_event_buffer_is_bounded(state: SubscriberView, event: EventView, parent: u64)
    requires
        state.wf(),
        event.parent_id == Some(parent),
        state.spans.contains_key(parent),
    ensures
        state.spans[parent].events.len() == LEN_LIMIT ==> !state.keeps(event) && state.signal_for(
            event,
        ) == Some(Signal::TooManyEvents) && state.after_event(event) == state,
        state.spans[parent].events.len() < LEN_LIMIT ==> state.keeps(event) && state.signal_for(
            event,
        ) is None && state.after_event(event).spans[parent].events == state.spans[parent].events.push(
            event,
        ),
{
}

/// An event without a parent, or with a parent that is not in the registry,
/// is handed on by itself and changes nothing; only the second raises a
/// diagnostic.
pub proof fn law_orphan_event_stands_alone(state: SubscriberView, event: EventView)
    requires
        match event.parent_id {
            Some(parent) => !state.spans.contains_key(parent),
            None => true,
        },
    ensures
        !state.keeps(event),
        state.after_event(event) == state,
        event.parent_id is None ==> state.signal_for(event) is None,
        event.parent_id is Some ==> state.signal_for(event) == Some(Signal::ParentMissing),
{
}

/// The state after a run of enter/exit cycles of the span `id`, each given by
/// the time of its enter and the time of its exit.
pub open spec fn after_cycles(state: SubscriberView, id: u64, cycles: Seq<(u64, u64)>) -> SubscriberView
    decreases cycles.len(),
{
    if cycles.len() == 0 {
        state
    } else {
        after_cycles(state, id, cycles.drop_last()).after_enter(id, cycles.last().0).after_exit(
            id,
            cycles.last().1,
        )
    }
}

/// The sum of the time spent in each cycle.
pub open spec fn total_elapsed(cycles: Seq<(u64, u64)>) -> nat
    decreases cycles.len(),
{
    if cycles.len() == 0 {
        0
    } else {
        total_elapsed(cycles.drop_last()) + elapsed(cycles.last().0, cycles.last().1)
    }
}

/// After any number of enter/exit cycles the duration of a span is what it
/// was before plus the sum of the time spent in each cycle, held at the
/// largest value that fits. Nothing else about the span changes but the time
/// of its last enter.
pub proof fn law_cycles_accumulate(state: SubscriberView, id: u64, cycles: Seq<(u64, u64)>)
    requires
        state.spans.contains_key(id),
    ensures
        after_cycles(state, id, cycles).spans.contains_key(id),
        after_cycles(state, id, cycles).spans[id].overall_time == accumulated(
            state.spans[id].overall_time,
            total_elapsed(cycles),
        ),
        after_cycles(state, id, cycles).spans[id].overall_time >= state.spans[id].overall_time,
        after_cycles(state, id, cycles).spans[id].events == state.spans[id].events,
        after_cycles(state, id, cycles).spans[id].values == state.spans[id].values,
    decreases cycles.len(),
{
    if cycles.len() > 0 {
        law_cycles_accumulate(state, id, cycles.drop_last());
    }
}

/// The duration of a span never decreases: no callback makes it smaller while
/// the span is in the registry.
pub proof fn law_duration_never_decreases(
    state: SubscriberView,
    span: u64,
    values: Attributes,
    event: EventView,
    id: u64,
    now: u64,
)
    requires
        state.spans.contains_key(span),
    ensures
        state.after_record(id, values).spans[span].overall_time >= state.spans[span].overall_time,
        state.after_enter(id, now).spans[span].overall_time >= state.spans[span].overall_time,
        state.after_exit(id, now).spans[span].overall_time >= state.spans[span].overall_time,
        state.after_event(event).spans[span].overall_time >= state.spans[span].overall_time,
        state.after_exit(span, now).spans[span].overall_time == accumulated(
            state.spans[span].overall_time,
            elapsed(state.spans[span].start_time, now),
        ),
{
}

/// Closing a span a second time does nothing: nothing is handed on, and the
/// state stays as the first close left it. The same holds of closing an id
/// that was never stored.
pub proof fn law_close_is_idempotent(state: SubscriberView, id: u64)
    ensures
        state.after_close(id).closing(id) is None,
        state.after_close(id).after_close(id) == state.after_close(id),
        !state.spans.contains_key(id) ==> state.closing(id) is None && state.after_close(id)
            == state,
{
    assert(state.spans.remove(id).remove(id) =~= state.spans.remove(id));
    if !state.spans.contains_key(id) {
        assert(state.spans.remove(id) =~= state.spans);
    }
}

/// A closed span is gone from the registry, and closing touches no other
/// span.
pub proof fn law_close_removes_only_its_span(state: SubscriberView, id: u64, other: u64)
    requires
        other != id,
    ensures
        !state.after_close(id).spans.contains_key(id),
        state.after_close(id).spans.contains_key(other) == state.spans.contains_key(other),
        state.spans.contains_key(other) ==> state.after_close(id).spans[other]
            == state.spans[other],
{
}

} // verus!
