use span_profiler::handlers::{
    list_text, option_id_text, LogTraceHandler, TelemetryTraceHandler, TracingReceiver,
};
use span_profiler::level::Level;
use span_profiler::record::{SpanDatum, TraceEvent};
use span_profiler::visitor::Visitor;

fn event(name: &'static str, parent_id: Option<u64>, values: Visitor) -> TraceEvent {
    TraceEvent { name, target: "tgt".to_string(), level: Level::Info, visitor: values, parent_id }
}

fn one(name: &str, value: &str) -> Visitor {
    let mut values = Visitor::new();
    values.record_str(name, value);
    values
}

fn span(values: Visitor, events: Vec<TraceEvent>) -> SpanDatum {
    SpanDatum {
        id: 7,
        parent_id: Some(3),
        name: "work".to_string(),
        target: "tgt".to_string(),
        level: Level::Debug,
        line: 12,
        start_time: 1000,
        overall_time: 2500,
        values,
        events,
    }
}

#[test]
fn receiver_defaults_to_log() {
    assert!(matches!(TracingReceiver::default(), TracingReceiver::Log));
}

#[test]
fn optional_id_prints_like_debug() {
    assert_eq!(option_id_text(None), format!("{:?}", None::<u64>));
    assert_eq!(option_id_text(Some(0)), format!("{:?}", Some(0u64)));
    assert_eq!(option_id_text(Some(u64::MAX)), "Some(18446744073709551615)");
}

#[test]
fn list_is_bracketed_and_separated() {
    assert_eq!(list_text(&vec![]), "[]");
    assert_eq!(list_text(&vec!["a".to_string()]), "[a]");
    assert_eq!(list_text(&vec!["a".to_string(), "".to_string(), "c".to_string()]), "[a, , c]");
}

#[test]
fn event_line_names_the_parts() {
    let handler = LogTraceHandler;
    assert_eq!(
        handler.event_line(&event("ev", Some(4), one("k", "v"))),
        "ev: tgt, parent_id: Some(4), values: k=v"
    );
    assert_eq!(
        handler.event_line(&event("ev", None, Visitor::new())),
        "ev: tgt, parent_id: None, values: "
    );
    assert_eq!(
        LogTraceHandler::event_line_with(&event("ev", None, one("k", "v")), "given"),
        "ev: tgt, parent_id: None, values: given"
    );
}

#[test]
fn span_line_without_values_leaves_them_out() {
    let handler = LogTraceHandler;
    assert_eq!(
        handler.span_line(&span(Visitor::new(), vec![])),
        "tgt: work, time: 2500, id: 7, parent_id: Some(3), events: []"
    );
}

#[test]
fn span_line_with_values_and_events() {
    let handler = LogTraceHandler;
    let events = vec![event("e1", Some(7), one("a", "1")), event("e2", Some(7), Visitor::new())];
    assert_eq!(
        handler.span_line(&span(one("k", "v"), events)),
        "tgt: work, time: 2500, id: 7, parent_id: Some(3), values: k=v, events: \
         [e1: tgt, parent_id: Some(7), values: a=1, e2: tgt, parent_id: Some(7), values: ]"
    );
}

#[test]
fn span_line_with_given_texts() {
    let mut root = span(one("k", "v"), vec![]);
    root.parent_id = None;
    root.overall_time = 0;
    assert_eq!(
        LogTraceHandler::span_line_with(&root, "VALUES", "EVENTS"),
        "tgt: work, time: 0, id: 7, parent_id: None, values: VALUES, events: EVENTS"
    );
    assert_eq!(
        LogTraceHandler::span_line_with(&span(Visitor::new(), vec![]), "VALUES", "EVENTS"),
        "tgt: work, time: 2500, id: 7, parent_id: Some(3), events: EVENTS"
    );
}

#[test]
fn telemetry_span_message_takes_the_fields() {
    let handler = TelemetryTraceHandler;
    let message = handler.span_message(span(one("k", "v"), vec![event("e", Some(7), Visitor::new())]));
    assert_eq!(message.name, "work");
    assert_eq!(message.target, "tgt");
    assert_eq!(message.time, 2500);
    assert_eq!(message.id, 7);
    assert_eq!(message.parent_id, Some(3));
    assert_eq!(message.values.entries(), vec![("k".to_string(), "v".to_string())]);
}

#[test]
fn telemetry_event_message_takes_the_fields() {
    let handler = TelemetryTraceHandler;
    let message = handler.event_message(event("ev", Some(4), one("k", "v")));
    assert_eq!(message.name, "ev");
    assert_eq!(message.target, "tgt");
    assert_eq!(message.parent_id, Some(4));
    assert_eq!(message.values.get("k"), Some(&"v".to_string()));
}
