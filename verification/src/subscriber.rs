//! The subscriber: the registry of spans in flight and the callbacks that
//! drive it.

use rustc_hash::FxHashMap;
use vstd::prelude::*;
use vstd::string::*;
use crate::bridge::{wasm_name_key, wasm_target_key, wasm_trace_identifier, PROXY_TARGET};
use crate::context::CurrentSpan;
use crate::filter::{check_target, parse_targets, rules_of, split_rules};
use crate::level::Level;
use crate::model::{event_at, Signal, SubscriberView, LEN_LIMIT};
use crate::record::{events_of, Metadata, SpanDatum, SpanView, TraceEvent};
use crate::text::str_eq;
use crate::visitor::Visitor;

verus! {

/// A handler for finished spans and for events that stand by themselves.
pub trait TraceHandler: Send + Sync {
    /// Process a `SpanDatum`.
    fn process_span(&self, span: SpanDatum);

    /// Process a `TraceEvent`.
    fn process_event(&self, event: TraceEvent);
}

/// Where an event goes.
pub enum Placement {
    /// The event is kept with its parent span and handed on when that span
    /// is closed.
    Attached,
    /// The event is to be handed on by itself, with the diagnostic that goes
    /// with it, if any.
    Standalone { event: TraceEvent, signal: Option<Signal> },
}

/// The contents of the spans in a registry.
pub open spec fn spans_of(registry: Map<u64, SpanDatum>) -> Map<u64, SpanView> {
    registry.map_values(|span: SpanDatum| span@)
}

/// Calls `HashMap::insert` on the registry: the id maps to the span
/// afterwards, and no other entry changes.
#[verifier::external_body]
fn registry_insert(registry: &mut FxHashMap<u64, SpanDatum>, id: u64, span: SpanDatum)
    ensures
        final(registry)@ == old(registry)@.insert(id, span),
{
    registry.insert(id, span);
}

/// Calls `HashMap::remove` on the registry: the id is absent afterwards, no
/// other entry changes, and the span that was stored under it is returned.
#[verifier::external_body]
fn registry_remove(registry: &mut FxHashMap<u64, SpanDatum>, id: u64) -> (span: Option<SpanDatum>)
    ensures
        final(registry)@ == old(registry)@.remove(id),
        match span {
            Some(stored) => old(registry)@.contains_key(id) && old(registry)@[id] == stored,
            None => !old(registry)@.contains_key(id),
        },
{
    registry.remove(&id)
}

/// Responsible for assigning ids to new spans, which are not re-used, and for
/// keeping each span from its creation until it is closed.
pub struct ProfilingSubscriber {
    next_id: u64,
    targets: Vec<(String, Level)>,
    trace_handler: Box<dyn TraceHandler>,
    span_data: FxHashMap<u64, SpanDatum>,
}

impl View for ProfilingSubscriber {
    type V = SubscriberView;

    closed spec fn view(&self) -> SubscriberView {
        SubscriberView {
            next_id: self.next_id,
            rules: rules_of(self.targets@),
            spans: spans_of(self.span_data@),
        }
    }
}

impl ProfilingSubscriber {
    /// The invariant of the subscriber: that of its state.
    pub open spec fn wf(&self) -> bool {
        self@.wf()
    }

    /// Creates a subscriber that hands its records to `trace_handler`.
    /// Takes a comma separated list of targets, either with a level, as in
    /// `pallet=trace`, or without, as in `pallet`, in which case the level
    /// defaults to `trace`. The first span gets the id 1.
    pub fn new_with_handler(trace_handler: Box<dyn TraceHandler>, targets: &str) -> (subscriber:
        ProfilingSubscriber)
        ensures
            subscriber@.next_id == 1,
            subscriber@.rules == split_rules(targets@),
            subscriber@.spans == Map::<u64, SpanView>::empty(),
            subscriber.wf(),
    {
        let subscriber = ProfilingSubscriber {
            next_id: 1,
            targets: parse_targets(targets),
            trace_handler,
            span_data: FxHashMap::default(),
        };
        assert(subscriber@.spans =~= Map::<u64, SpanView>::empty());
        subscriber
    }

    /// Decides whether a record with this target and level passes the filter.
    pub fn check_target(&self, target: &str, level: Level) -> (enabled: bool)
        ensures
            enabled == self@.passes(target@, level),
    {
        check_target(&self.targets, target, level)
    }

    /// Decides whether a call site is worth instrumenting.
    pub fn enabled(&self, metadata: &Metadata) -> (enabled: bool)
        ensures
            enabled == self@.observable(metadata@.target, metadata@.level),
    {
        str_eq(metadata.target.as_str(), PROXY_TARGET) || self.check_target(
            metadata.target.as_str(),
            metadata.level,
        )
    }

    /// Creates a span at time `now` and returns its id. The parent of the
    /// span is the span that the thread entered last. The id is used up even
    /// where the span is not stored, which happens only to a span that
    /// carries a bridged target that does not pass the filter.
    pub fn new_span(
        &mut self,
        context: &CurrentSpan,
        metadata: &Metadata,
        values: Visitor,
        now: u64,
    ) -> (id: u64)
        requires
            old(self).wf(),
        ensures
            id == old(self)@.next_id,
            final(self)@ == old(self)@.after_new_span(context@, metadata@, values@, now),
            final(self).wf(),
    {
        let id = self.next_id;
        self.next_id = if id == u64::MAX {
            0
        } else {
            id + 1
        };
        let admitted = match values.get(wasm_target_key()) {
            Some(wasm_target) => check_target(&self.targets, wasm_target.as_str(), metadata.level),
            None => true,
        };
        if admitted {
            let span_datum = SpanDatum {
                id,
                parent_id: context.id(),
                name: metadata.name.to_owned(),
                target: metadata.target.clone(),
                level: metadata.level,
                line: match metadata.line {
                    Some(line) => line,
                    None => 0,
                },
                start_time: now,
                overall_time: 0,
                values,
                events: Vec::new(),
            };
            assert(span_datum@ == old(self)@.created(context@, metadata@, values@, now)) by {
                assert(events_of(span_datum.events@) =~= Seq::empty());
            }
            registry_insert(&mut self.span_data, id, span_datum);
            assert(self@.spans =~= old(self)@.spans.insert(id, span_datum@));
        }
        id
    }

    /// Records further values for the span `span`. They are merged into its
    /// attributes; a span that is not in the registry is left alone.
    pub fn record(&mut self, span: u64, values: &Visitor)
        requires
            old(self).wf(),
        ensures
            final(self)@ == old(self)@.after_record(span, values@),
            final(self).wf(),
    {
        match registry_remove(&mut self.span_data, span) {
            Some(mut s) => {
                s.values.merge(values);
                registry_insert(&mut self.span_data, span, s);
                assert(self@.spans =~= old(self)@.spans.insert(span, s@));
            },
            None => {
                assert(self@.spans =~= old(self)@.spans);
            },
        }
    }

    /// Decides where an event goes, and keeps it where it belongs to a span
    /// in the registry that has room for it.
    pub fn place_event(&mut self, event: TraceEvent) -> (placement: Placement)
        requires
            old(self).wf(),
        ensures
            final(self)@ == old(self)@.after_event(event@),
            final(self).wf(),
            match placement {
                Placement::Attached => old(self)@.keeps(event@),
                Placement::Standalone { event: alone, signal } => !old(self)@.keeps(event@)
                    && alone == event && signal == old(self)@.signal_for(event@),
            },
    {
        match event.parent_id {
            Some(parent_id) => {
                match registry_remove(&mut self.span_data, parent_id) {
                    Some(mut span) => {
                        if span.events.len() >= LEN_LIMIT {
                            registry_insert(&mut self.span_data, parent_id, span);
                            assert(self@.spans =~= old(self)@.spans);
                            Placement::Standalone { event, signal: Some(Signal::TooManyEvents) }
                        } else {
                            let ghost before = span.events@;
                            span.events.push(event);
                            assert(events_of(span.events@) =~= events_of(before).push(event@));
                            registry_insert(&mut self.span_data, parent_id, span);
                            assert(self@.spans =~= old(self)@.spans.insert(parent_id, span@));
                            Placement::Attached
                        }
                    },
                    None => {
                        assert(self@.spans =~= old(self)@.spans);
                        Placement::Standalone { event, signal: Some(Signal::ParentMissing) }
                    },
                }
            },
            None => Placement::Standalone { event, signal: None },
        }
    }

    /// Takes an event. Its parent is the span that the thread entered last.
    /// With a parent in the registry that has room, the event is kept with
    /// it; otherwise it is handed to the handler at once, and the diagnostic
    /// that goes with that is returned.
    pub fn event(&mut self, context: &CurrentSpan, metadata: &Metadata, values: Visitor) -> (signal:
        Option<Signal>)
        requires
            old(self).wf(),
        ensures
            final(self)@ == old(self)@.after_event(event_at(metadata@, values@, context@)),
            signal == old(self)@.signal_for(event_at(metadata@, values@, context@)),
            final(self).wf(),
    {
        let trace_event = TraceEvent {
            name: metadata.name,
            target: metadata.target.clone(),
            level: metadata.level,
            visitor: values,
            parent_id: context.id(),
        };
        match self.place_event(trace_event) {
            Placement::Attached => None,
            Placement::Standalone { event, signal } => {
                self.trace_handler.process_event(event);
                signal
            },
        }
    }

    /// The thread enters the span `span` at time `now`.
    pub fn enter(&mut self, context: &mut CurrentSpan, span: u64, now: u64)
        requires
            old(self).wf(),
        ensures
            final(context)@ == old(context)@.push(span),
            final(self)@ == old(self)@.after_enter(span, now),
            final(self).wf(),
    {
        context.enter(span);
        match registry_remove(&mut self.span_data, span) {
            Some(mut s) => {
                s.start_time = now;
                registry_insert(&mut self.span_data, span, s);
                assert(self@.spans =~= old(self)@.spans.insert(span, s@));
            },
            None => {
                assert(self@.spans =~= old(self)@.spans);
            },
        }
    }

    /// The thread exits a span at time `now`. The span that the thread
    /// entered last leaves its context, whichever id is given; the time since
    /// `span` was entered is added to the duration of `span`.
    pub fn exit(&mut self, context: &mut CurrentSpan, span: u64, now: u64)
        requires
            old(self).wf(),
        ensures
            final(context)@ == if old(context)@.len() == 0 {
                old(context)@
            } else {
                old(context)@.drop_last()
            },
            final(self)@ == old(self)@.after_exit(span, now),
            final(self).wf(),
    {
        context.exit();
        match registry_remove(&mut self.span_data, span) {
            Some(mut s) => {
                s.overall_time = s.overall_time.saturating_add(now.saturating_sub(s.start_time));
                registry_insert(&mut self.span_data, span, s);
                assert(self@.spans =~= old(self)@.spans.insert(span, s@));
            },
            None => {
                assert(self@.spans =~= old(self)@.spans);
            },
        }
    }

    /// Takes the span `span` out of the registry and returns it where it is
    /// to be handed on: unwrapped, and only if its target and level pass the
    /// filter. An id that is not in the registry gives `None`.
    pub fn close_span(&mut self, span: u64) -> (closed: Option<SpanDatum>)
        requires
            old(self).wf(),
        ensures
            final(self)@ == old(self)@.after_close(span),
            final(self).wf(),
            match closed {
                Some(datum) => old(self)@.closing(span) == Some(datum@),
                None => old(self)@.closing(span) is None,
            },
    {
        let span_datum = registry_remove(&mut self.span_data, span);
        assert(self@.spans =~= old(self)@.spans.remove(span));
        match span_datum {
            Some(mut span_datum) => {
                if str_eq(span_datum.name.as_str(), wasm_trace_identifier()) {
                    proof {
                        reveal_strlit("wasm");
                        reveal_strlit("true");
                    }
                    span_datum.values.record_str("wasm", "true");
                    match span_datum.values.remove(wasm_name_key()) {
                        Some(n) => {
                            span_datum.name = n;
                        },
                        None => {},
                    }
                    match span_datum.values.remove(wasm_target_key()) {
                        Some(t) => {
                            span_datum.target = t;
                        },
                        None => {},
                    }
                }
                if check_target(&self.targets, span_datum.target.as_str(), span_datum.level) {
                    Some(span_datum)
                } else {
                    None
                }
            },
            None => None,
        }
    }

    /// Closes the span `span`: it leaves the registry and, where its target
    /// and level pass the filter, goes to the handler. Closing a span that is
    /// not in the registry does nothing. The answer is always `true`.
    pub fn try_close(&mut self, span: u64) -> (accepted: bool)
        requires
            old(self).wf(),
        ensures
            accepted,
            final(self)@ == old(self)@.after_close(span),
            final(self).wf(),
    {
        match self.close_span(span) {
            Some(span_datum) => {
                self.trace_handler.process_span(span_datum);
            },
            None => {},
        }
        true
    }
}

} // verus!
