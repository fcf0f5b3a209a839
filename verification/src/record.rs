//! The records that the subscriber builds and hands on: spans and events.

use vstd::prelude::*;
use crate::level::Level;
use crate::visitor::{Attributes, Visitor};

verus! {

/// The content of a [`Metadata`].
pub struct SiteView {
    pub name: Seq<char>,
    pub target: Seq<char>,
    pub level: Level,
    pub line: Option<u32>,
}

/// The content of a [`TraceEvent`].
pub struct EventView {
    pub name: Seq<char>,
    pub target: Seq<char>,
    pub level: Level,
    pub values: Attributes,
    pub parent_id: Option<u64>,
}

/// The content of a [`SpanDatum`].
pub struct SpanView {
    pub id: u64,
    pub parent_id: Option<u64>,
    pub name: Seq<char>,
    pub target: Seq<char>,
    pub level: Level,
    pub line: u32,
    pub start_time: u64,
    pub overall_time: u64,
    pub values: Attributes,
    pub events: Seq<EventView>,
}

/// Describes the call site of a span or an event.
#[derive(Debug)]
pub struct Metadata {
    pub name: &'static str,
    pub target: String,
    pub level: Level,
    /// Source line of the call site, where it is known.
    pub line: Option<u32>,
}

impl View for Metadata {
    type V = SiteView;

    open spec fn view(&self) -> SiteView {
        SiteView { name: self.name@, target: self.target@, level: self.level, line: self.line }
    }
}

/// Represents a tracing event, complete with values.
#[derive(Debug)]
pub struct TraceEvent {
    pub name: &'static str,
    pub target: String,
    pub level: Level,
    pub visitor: Visitor,
    /// The span that was entered last on the emitting thread, if any. The
    /// span may be closed by the time this is read.
    pub parent_id: Option<u64>,
}

/// Represents a single instance of a tracing span.
#[derive(Debug)]
pub struct SpanDatum {
    pub id: u64,
    /// The span that was entered last on the creating thread, if any. The
    /// span may be closed by the time this is read.
    pub parent_id: Option<u64>,
    pub name: String,
    pub target: String,
    pub level: Level,
    /// Source line of the call site, 0 where it is not known.
    pub line: u32,
    /// Reading of the caller's monotonic clock, in nanoseconds, when the span
    /// was created or last entered.
    pub start_time: u64,
    /// Nanoseconds spent inside the span, over all completed enter/exit
    /// cycles.
    pub overall_time: u64,
    pub values: Visitor,
    pub events: Vec<TraceEvent>,
}

impl View for TraceEvent {
    type V = EventView;

    open spec fn view(&self) -> EventView {
        EventView {
            name: self.name@,
            target: self.target@,
            level: self.level,
            values: self.visitor@,
            parent_id: self.parent_id,
        }
    }
}

/// The contents of a list of events, in order.
pub open spec fn events_of(events: Seq<TraceEvent>) -> Seq<EventView> {
    events.map_values(|event: TraceEvent| event@)
}

impl View for SpanDatum {
    type V = SpanView;

    open spec fn view(&self) -> SpanView {
        SpanView {
            id: self.id,
            parent_id: self.parent_id,
            name: self.name@,
            target: self.target@,
            level: self.level,
            line: self.line,
            start_time: self.start_time,
            overall_time: self.overall_time,
            values: self.values@,
            events: events_of(self.events@),
        }
    }
}

} // verus!
