//! The two ways in which records leave the process: as log lines and as
//! telemetry messages. This module prepares what is sent; sending is left to
//! the caller.

use vstd::prelude::*;
use vstd::string::*;
use crate::record::{events_of, EventView, SpanDatum, SpanView, TraceEvent};
use crate::text::{decimal, decimal_text};
use crate::visitor::{no_attributes, prints_values, Visitor};

verus! {

/// Used to configure how to receive the metrics.
#[derive(Debug, Clone)]
pub enum TracingReceiver {
    /// Output to logger.
    Log,
    /// Output to telemetry.
    Telemetry,
}

impl Default for TracingReceiver {
    fn default() -> (receiver: Self)
        ensures
            receiver is Log,
    {
        Self::Log
    }
}

/// How an optional id is printed.
pub open spec fn option_text(value: Option<u64>) -> Seq<char> {
    match value {
        Some(id) => "Some("@ + decimal(id as nat) + ")"@,
        None => "None"@,
    }
}

/// The line of an event, given the text of its values.
pub open spec fn event_text(event: EventView, values: Seq<char>) -> Seq<char> {
    event.name + ": "@ + event.target + ", parent_id: "@ + option_text(event.parent_id)
        + ", values: "@ + values
}

/// The items, separated by `", "`.
pub open spec fn separated(items: Seq<Seq<char>>) -> Seq<char>
    decreases items.len(),
{
    if items.len() == 0 {
        Seq::empty()
    } else if items.len() == 1 {
        items[0]
    } else {
        separated(items.drop_last()) + ", "@ + items.last()
    }
}

/// The items as a list in square brackets.
pub open spec fn listed(items: Seq<Seq<char>>) -> Seq<char> {
    "["@ + separated(items) + "]"@
}

/// The line of a span, given the text of its values and of its events. The
/// values are left out where there are none.
pub open spec fn span_text(span: SpanView, values: Seq<char>, events: Seq<char>) -> Seq<char> {
    span.target + ": "@ + span.name + ", time: "@ + decimal(span.overall_time as nat) + ", id: "@
        + decimal(span.id as nat) + ", parent_id: "@ + option_text(span.parent_id) + (if span.values
        == no_attributes() {
        Seq::empty()
    } else {
        ", values: "@ + values
    }) + ", events: "@ + events
}

/// `text` is the line of the event, with its values in some order.
pub open spec fn prints_event(text: Seq<char>, event: EventView) -> bool {
    exists|values: Seq<char>|
        prints_values(values, event.values) && text == #[trigger] event_text(event, values)
}

/// `text` lists the lines of the events, in their order.
pub open spec fn prints_events(text: Seq<char>, events: Seq<EventView>) -> bool {
    exists|items: Seq<Seq<char>>|
        items.len() == events.len() && (forall|i: int|
            0 <= i < items.len() ==> prints_event(#[trigger] items[i], events[i])) && text
            == #[trigger] listed(items)
}

/// `text` is the line of the span, with its values in some order.
pub open spec fn prints_span(text: Seq<char>, span: SpanView) -> bool {
    exists|values: Seq<char>, events: Seq<char>|
        prints_values(values, span.values) && prints_events(events, span.events) && text
            == #[trigger] span_text(span, values, events)
}

/// The texts that a vector of strings holds.
pub open spec fn texts_of(items: Seq<String>) -> Seq<Seq<char>> {
    items.map_values(|item: String| item@)
}

/// Prints an optional id as `Some(..)` or `None`.
pub fn option_id_text(value: Option<u64>) -> (text: String)
    ensures
        text@ == option_text(value),
{
    match value {
        Some(id) => {
            let mut text = String::from_str("Some(");
            text.append(decimal_text(id).as_str());
            text.append(")");
            text
        },
        None => String::from_str("None"),
    }
}

/// Prints the items as a list in square brackets, separated by `", "`.
pub fn list_text(items: &Vec<String>) -> (text: String)
    ensures
        text@ == listed(texts_of(items@)),
{
    let mut text = String::from_str("[");
    let mut i: usize = 0;
    assert(texts_of(items@).take(0) =~= Seq::<Seq<char>>::empty());
    assert("["@ + separated(Seq::<Seq<char>>::empty()) =~= "["@);
    while i < items.len()
        invariant
            i <= items.len(),
            text@ == "["@ + separated(texts_of(items@).take(i as int)),
        decreases items.len() - i,
    {
        let ghost done = texts_of(items@).take(i as int);
        let ghost next = texts_of(items@).take(i + 1);
        let ghost before = text@;
        if i > 0 {
            text.append(", ");
        }
        text.append(items[i].as_str());
        proof {
            assert(next.drop_last() =~= done);
            assert(next.last() == items@[i as int]@);
            if i == 0 {
                assert(next[0] == next.last());
                assert(before + items@[0]@ =~= "["@ + items@[0]@);
            } else {
                assert(before + ", "@ + items@[i as int]@ =~= "["@ + (separated(done) + ", "@
                    + items@[i as int]@));
            }
        }
        i += 1;
    }
    assert(texts_of(items@).take(i as int) =~= texts_of(items@));
    text.append("]");
    text
}

/// TraceHandler for sending span data to the logger.
pub struct LogTraceHandler;

impl LogTraceHandler {
    /// The log line of an event whose values were printed as `values`.
    pub fn event_line_with(event: &TraceEvent, values: &str) -> (line: String)
        ensures
            line@ == event_text(event@, values@),
    {
        let mut line = String::from_str(event.name);
        line.append(": ");
        line.append(event.target.as_str());
        line.append(", parent_id: ");
        line.append(option_id_text(event.parent_id).as_str());
        line.append(", values: ");
        line.append(values);
        line
    }

    /// The log line of a span whose values were printed as `values` and
    /// whose events were printed as `events`.
    pub fn span_line_with(span: &SpanDatum, values: &str, events: &str) -> (line: String)
        ensures
            line@ == span_text(span@, values@, events@),
    {
        let mut line = span.target.clone();
        line.append(": ");
        line.append(span.name.as_str());
        line.append(", time: ");
        line.append(decimal_text(span.overall_time).as_str());
        line.append(", id: ");
        line.append(decimal_text(span.id).as_str());
        line.append(", parent_id: ");
        line.append(option_id_text(span.parent_id).as_str());
        let ghost head = line@;
        if !span.values.is_empty() {
            line.append(", values: ");
            line.append(values);
            assert(line@ =~= head + (", values: "@ + values@));
        } else {
            assert(line@ =~= head + Seq::<char>::empty());
        }
        line.append(", events: ");
        line.append(events);
        line
    }

    /// The log line of an event that stands by itself.
    pub fn event_line(&self, event: &TraceEvent) -> (line: String)
        ensures
            prints_event(line@, event@),
    {
        let values = event.visitor.render();
        Self::event_line_with(event, values.as_str())
    }

    /// The log line of a finished span, with the events it kept.
    pub fn span_line(&self, span: &SpanDatum) -> (line: String)
        ensures
            prints_span(line@, span@),
    {
        let values = span.values.render();
        let mut lines: Vec<String> = Vec::new();
        let mut i: usize = 0;
        while i < span.events.len()
            invariant
                i <= span.events.len(),
                lines@.len() == i,
                forall|j: int|
                    0 <= j < i ==> prints_event(
                        #[trigger] texts_of(lines@)[j],
                        events_of(span.events@)[j],
                    ),
            decreases span.events.len() - i,
        {
            let ghost before = texts_of(lines@);
            let line = self.event_line(&span.events[i]);
            lines.push(line);
            proof {
                assert(texts_of(lines@) =~= before.push(line@));
                assert(events_of(span.events@)[i as int] == span.events@[i as int]@);
            }
            i += 1;
        }
        let events = list_text(&lines);
        assert(prints_events(events@, span@.events)) by {
            let items = texts_of(lines@);
            assert(items.len() == span@.events.len() && (forall|j: int|
                0 <= j < items.len() ==> prints_event(#[trigger] items[j], span@.events[j]))
                && events@ == listed(items));
        }
        Self::span_line_with(span, values.as_str(), events.as_str())
    }
}

/// What is sent to telemetry for a finished span, under these field names.
#[derive(Debug)]
pub struct SpanMessage {
    pub name: String,
    pub target: String,
    /// The duration of the span in nanoseconds.
    pub time: u64,
    pub id: u64,
    pub parent_id: Option<u64>,
    pub values: Visitor,
}

/// What is sent to telemetry for an event, under these field names.
#[derive(Debug)]
pub struct EventMessage {
    pub name: &'static str,
    pub target: String,
    pub parent_id: Option<u64>,
    pub values: Visitor,
}

/// TraceHandler for sending span data to telemetry.
pub struct TelemetryTraceHandler;

impl TelemetryTraceHandler {
    /// The message for a finished span. The events it kept are not sent.
    pub fn span_message(&self, span: SpanDatum) -> (message: SpanMessage)
        ensures
            message.name@ == span@.name,
            message.target@ == span@.target,
            message.time == span@.overall_time,
            message.id == span@.id,
            message.parent_id == span@.parent_id,
            message.values@ == span@.values,
    {
        SpanMessage {
            name: span.name,
            target: span.target,
            time: span.overall_time,
            id: span.id,
            parent_id: span.parent_id,
            values: span.values,
        }
    }

    /// The message for an event that stands by itself.
    pub fn event_message(&self, event: TraceEvent) -> (message: EventMessage)
        ensures
            message.name@ == event@.name,
            message.target@ == event@.target,
            message.parent_id == event@.parent_id,
            message.values@ == event@.values,
    {
        EventMessage {
            name: event.name,
            target: event.target,
            parent_id: event.parent_id,
            values: event.visitor,
        }
    }
}

} // verus!
