//! The subscriber as a mathematical state, and what each callback does to it.

use vstd::prelude::*;
use crate::bridge::{
    bridged_key,
    bridged_value,
    name_key,
    proxy_target,
    target_key,
    trace_identifier,
};
use crate::context::innermost;
use crate::filter::{allows, Rule};
use crate::level::Level;
use crate::record::{EventView, SiteView, SpanView};
use crate::visitor::Attributes;

verus! {

/// The number of events that a span keeps at most. Events beyond it are
/// handed on by themselves.
pub const LEN_LIMIT: usize = 128;

/// Why an event that names a parent span is handed on by itself.
#[derive(Clone, Copy, Debug, PartialEq, Eq, Structural)]
pub enum Signal {
    /// The parent span is not in the registry: it was closed already, or it
    /// was rejected when it was created.
    ParentMissing,
    /// The parent span already keeps [`LEN_LIMIT`] events.
    TooManyEvents,
}

/// The state of a subscriber.
pub struct SubscriberView {
    /// The id that the next span gets.
    pub next_id: u64,
    /// The rules of the target filter.
    pub rules: Seq<Rule>,
    /// The spans that were created and not yet closed, by id.
    pub spans: Map<u64, SpanView>,
}

/// The id that follows `id`. The counter wraps around as an atomic counter
/// does.
pub open spec fn id_after(id: u64) -> u64 {
    if id == u64::MAX {
        0
    } else {
        (id + 1) as u64
    }
}

/// The time between two readings of a monotonic clock, zero where the second
/// is not later than the first.
pub open spec fn elapsed(start: u64, now: u64) -> nat {
    if now >= start {
        (now - start) as nat
    } else {
        0
    }
}

/// `total` with `delta` added, held at the largest value that fits.
pub open spec fn accumulated(total: u64, delta: nat) -> u64 {
    if total + delta > u64::MAX {
        u64::MAX
    } else {
        (total + delta) as u64
    }
}

/// The span as it is handed on when it is closed. A span under the reserved
/// name is marked as bridged and takes its name and target from the two
/// reserved attributes, which are removed; any other span is unchanged.
pub open spec fn unwrapped(span: SpanView) -> SpanView {
    if span.name == trace_identifier() {
        let marked = span.values.insert(bridged_key(), bridged_value());
        let without_name = marked.remove(name_key());
        SpanView {
            name: if marked.contains_key(name_key()) {
                marked[name_key()]
            } else {
                span.name
            },
            target: if without_name.contains_key(target_key()) {
                without_name[target_key()]
            } else {
                span.target
            },
            values: without_name.remove(target_key()),
            ..span
        }
    } else {
        span
    }
}

/// The event that is built for a call site, its values and the spans that the
/// thread is inside of.
pub open spec fn event_at(site: SiteView, values: Attributes, entered: Seq<u64>) -> EventView {
    EventView {
        name: site.name,
        target: site.target,
        level: site.level,
        values,
        parent_id: innermost(entered),
    }
}

impl SubscriberView {
    /// Every span is stored under its own id and keeps at most
    /// [`LEN_LIMIT`] events.
    pub open spec fn wf(self) -> bool {
        forall|id: u64| #[trigger]
            self.spans.contains_key(id) ==> self.spans[id].id == id && self.spans[id].events.len()
                <= LEN_LIMIT
    }

    /// Whether a record with this target and level passes the filter.
    pub open spec fn passes(self, target: Seq<char>, level: Level) -> bool {
        allows(self.rules, target, level)
    }

    /// Whether a call site with this target and level is worth instrumenting:
    /// the proxy target always is, any other where it passes the filter.
    pub open spec fn observable(self, target: Seq<char>, level: Level) -> bool {
        target == proxy_target() || self.passes(target, level)
    }

    /// Whether a new span with these values is stored. Only a span that
    /// carries the bridged target attribute can be turned away: it is where
    /// that target does not pass the filter at the span's level.
    pub open spec fn admits(self, values: Attributes, level: Level) -> bool {
        values.contains_key(target_key()) ==> self.passes(values[target_key()], level)
    }

    /// The record of a span that is created now.
    pub open spec fn created(
        self,
        entered: Seq<u64>,
        site: SiteView,
        values: Attributes,
        now: u64,
    ) -> SpanView {
        SpanView {
            id: self.next_id,
            parent_id: innermost(entered),
            name: site.name,
            target: site.target,
            level: site.level,
            line: match site.line {
                Some(line) => line,
                None => 0,
            },
            start_time: now,
            overall_time: 0,
            values,
            events: Seq::empty(),
        }
    }

    /// The state after a span was created. The id is used up whether or not
    /// the span is stored.
    pub open spec fn after_new_span(
        self,
        entered: Seq<u64>,
        site: SiteView,
        values: Attributes,
        now: u64,
    ) -> SubscriberView {
        SubscriberView {
            next_id: id_after(self.next_id),
            spans: if self.admits(values, site.level) {
                self.spans.insert(self.next_id, self.created(entered, site, values, now))
            } else {
                self.spans
            },
            ..self
        }
    }

    /// The state after `values` were recorded for the span `id`: they are
    /// merged into its attributes, the new value staying where a name is in
    /// both. An unknown id changes nothing.
    pub open spec fn after_record(self, id: u64, values: Attributes) -> SubscriberView {
        if self.spans.contains_key(id) {
            SubscriberView {
                spans: self.spans.insert(
                    id,
                    SpanView {
                        values: self.spans[id].values.union_prefer_right(values),
                        ..self.spans[id]
                    },
                ),
                ..self
            }
        } else {
            self
        }
    }

    /// The state after the span `id` was entered at time `now`.
    pub open spec fn after_enter(self, id: u64, now: u64) -> SubscriberView {
        if self.spans.contains_key(id) {
            SubscriberView {
                spans: self.spans.insert(id, SpanView { start_time: now, ..self.spans[id] }),
                ..self
            }
        } else {
            self
        }
    }

    /// The state after the span `id` was exited at time `now`: the time since
    /// it was entered is added to its duration.
    pub open spec fn after_exit(self, id: u64, now: u64) -> SubscriberView {
        if self.spans.contains_key(id) {
            SubscriberView {
                spans: self.spans.insert(
                    id,
                    SpanView {
                        overall_time: accumulated(
                            self.spans[id].overall_time,
                            elapsed(self.spans[id].start_time, now),
                        ),
                        ..self.spans[id]
                    },
                ),
                ..self
            }
        } else {
            self
        }
    }

    /// Whether the event is kept with its parent span: the parent is in the
    /// registry and keeps fewer than [`LEN_LIMIT`] events.
    pub open spec fn keeps(self, event: EventView) -> bool {
        match event.parent_id {
            Some(parent) => self.spans.contains_key(parent) && self.spans[parent].events.len()
                < LEN_LIMIT,
            None => false,
        }
    }

    /// The diagnostic that an event raises: none where it is kept or has no
    /// parent.
    pub open spec fn signal_for(self, event: EventView) -> Option<Signal> {
        match event.parent_id {
            Some(parent) => if !self.spans.contains_key(parent) {
                Some(Signal::ParentMissing)
            } else if self.spans[parent].events.len() >= LEN_LIMIT {
                Some(Signal::TooManyEvents)
            } else {
                None
            },
            None => None,
        }
    }

    /// The state after an event: where it is kept, it is the last event of
    /// its parent span.
    pub open spec fn after_event(self, event: EventView) -> SubscriberView {
        if self.keeps(event) {
            let parent = event.parent_id->0;
            SubscriberView {
                spans: self.spans.insert(
                    parent,
                    SpanView {
                        events: self.spans[parent].events.push(event),
                        ..self.spans[parent]
                    },
                ),
                ..self
            }
        } else {
            self
        }
    }

    /// The state after the span `id` was closed: it is gone from the
    /// registry.
    pub open spec fn after_close(self, id: u64) -> SubscriberView {
        SubscriberView { spans: self.spans.remove(id), ..self }
    }

    /// The span that is handed on when `id` is closed: the stored record,
    /// unwrapped, where its target and level then pass the filter.
    pub open spec fn closing(self, id: u64) -> Option<SpanView> {
        if self.spans.contains_key(id) && self.passes(
            unwrapped(self.spans[id]).target,
            self.spans[id].level,
        ) {
            Some(unwrapped(self.spans[id]))
        } else {
            None
        }
    }
}

} // verus!
