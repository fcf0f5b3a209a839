use span_profiler::context::CurrentSpan;
use span_profiler::text::{decimal_text, find_from, signed_decimal_text};
use span_profiler::visitor::{render_entries, Visitor};

fn pair(name: &str, value: &str) -> (String, String) {
    (name.to_string(), value.to_string())
}

#[test]
fn values_are_kept_as_text() {
    let mut values = Visitor::new();
    assert!(values.is_empty());
    values.record_i64("i", -42);
    values.record_u64("u", 18_446_744_073_709_551_615);
    values.record_bool("yes", true);
    values.record_bool("no", false);
    values.record_str("s", "text");
    assert!(!values.is_empty());
    assert_eq!(values.get("i"), Some(&"-42".to_string()));
    assert_eq!(values.get("u"), Some(&"18446744073709551615".to_string()));
    assert_eq!(values.get("yes"), Some(&"true".to_string()));
    assert_eq!(values.get("no"), Some(&"false".to_string()));
    assert_eq!(values.get("s"), Some(&"text".to_string()));
    assert_eq!(values.get("missing"), None);
}

#[test]
fn later_value_replaces_the_earlier_one() {
    let mut values = Visitor::new();
    values.record_u64("k", 1);
    values.record_str("k", "two");
    assert_eq!(values.entries(), vec![pair("k", "two")]);
}

#[test]
fn remove_returns_the_value_once() {
    let mut values = Visitor::new();
    values.record_str("k", "v");
    assert_eq!(values.remove("k"), Some("v".to_string()));
    assert_eq!(values.remove("k"), None);
    assert!(values.is_empty());
}

#[test]
fn entries_name_each_attribute_once() {
    let mut values = Visitor::new();
    for i in 0..20u64 {
        values.record_u64(&format!("k{}", i), i * i);
    }
    let mut entries = values.entries();
    entries.sort();
    let mut expected: Vec<(String, String)> =
        (0..20u64).map(|i| (format!("k{}", i), format!("{}", i * i))).collect();
    expected.sort();
    assert_eq!(entries, expected);
}

#[test]
fn record_all_goes_by_the_order_given() {
    let mut values = Visitor::new();
    values.record_str("a", "old");
    values.record_all(&vec![pair("a", "1"), pair("b", "2"), pair("a", "3")]);
    let mut entries = values.entries();
    entries.sort();
    assert_eq!(entries, vec![pair("a", "3"), pair("b", "2")]);
}

#[test]
fn merge_prefers_the_other_side() {
    let mut left = Visitor::new();
    left.record_str("a", "left");
    left.record_str("b", "left");
    let mut right = Visitor::new();
    right.record_str("b", "right");
    right.record_str("c", "right");
    left.merge(&right);
    let mut entries = left.entries();
    entries.sort();
    assert_eq!(entries, vec![pair("a", "left"), pair("b", "right"), pair("c", "right")]);
    assert_eq!(right.entries().len(), 2);
    left.merge(&Visitor::new());
    assert_eq!(left.entries().len(), 3);
}

#[test]
fn into_inner_gives_the_map() {
    let mut values = Visitor::new();
    values.record_str("k", "v");
    let map = values.into_inner();
    assert_eq!(map.len(), 1);
    assert_eq!(map.get("k"), Some(&"v".to_string()));
}

#[test]
fn render_prints_name_and_value() {
    let mut values = Visitor::new();
    assert_eq!(values.render(), "");
    values.record_str("k", "v");
    assert_eq!(values.render(), "k=v");
    values.record_u64("n", 5);
    let text = values.render();
    assert!(text == "k=v, n=5" || text == "n=5, k=v");
}

#[test]
fn render_entries_goes_by_the_order_given() {
    assert_eq!(render_entries(&vec![]), "");
    assert_eq!(render_entries(&vec![pair("a", "1")]), "a=1");
    assert_eq!(
        render_entries(&vec![pair("b", "2"), pair("a", "1"), pair("", "")]),
        "b=2, a=1, ="
    );
}

#[test]
fn numbers_print_as_std_prints_them() {
    for n in [0u64, 1, 9, 10, 11, 99, 100, 101, 1_000_000, 9_999_999_999, u64::MAX - 1, u64::MAX] {
        assert_eq!(decimal_text(n), n.to_string());
    }
    for n in [0i64, 1, -1, 9, -9, 10, -10, 123_456, -123_456, i64::MAX, i64::MIN + 1, i64::MIN] {
        assert_eq!(signed_decimal_text(n), n.to_string());
    }
    assert_eq!(decimal_text(1050), "1050");
    assert_eq!(signed_decimal_text(-9_223_372_036_854_775_808), "-9223372036854775808");
}

#[test]
fn find_from_counts_characters() {
    assert_eq!(find_from("a=b=c", 0, '='), 1);
    assert_eq!(find_from("a=b=c", 1, '='), 1);
    assert_eq!(find_from("a=b=c", 2, '='), 3);
    assert_eq!(find_from("a=b=c", 4, '='), 5);
    assert_eq!(find_from("a=b=c", 5, '='), 5);
    assert_eq!(find_from("", 0, '='), 0);
    assert_eq!(find_from("äö=ü", 0, '='), 2);
    assert_eq!(find_from("abc", 0, ','), 3);
}

#[test]
fn context_is_a_stack() {
    let mut context = CurrentSpan::new();
    assert_eq!(context.id(), None);
    context.exit();
    assert_eq!(context.id(), None);
    context.enter(3);
    context.enter(1);
    context.enter(3);
    assert_eq!(context.id(), Some(3));
    context.exit();
    assert_eq!(context.id(), Some(1));
    context.exit();
    assert_eq!(context.id(), Some(3));
    context.exit();
    assert_eq!(context.id(), None);
}
