use span_profiler::filter::{check_target, parse_target, parse_targets};
use span_profiler::level::Level;

#[test]
fn filter_with_and_without_level() {
    let rules = parse_targets("a=info,b");
    assert!(check_target(&rules, "a::x", Level::Info));
    assert!(!check_target(&rules, "a::x", Level::Debug));
    assert!(check_target(&rules, "b::y", Level::Trace));
    assert!(check_target(&rules, "a", Level::Error));
    assert!(!check_target(&rules, "c", Level::Error));
}

#[test]
fn entries_keep_their_order() {
    let rules = parse_targets("pallet=trace,frame=debug,x");
    assert_eq!(
        rules,
        vec![
            ("pallet".to_string(), Level::Trace),
            ("frame".to_string(), Level::Debug),
            ("x".to_string(), Level::Trace),
        ]
    );
}

#[test]
fn entry_is_cut_at_the_first_equals_sign() {
    assert_eq!(parse_target("a=warn"), ("a".to_string(), Level::Warn));
    assert_eq!(parse_target("a=b=warn"), ("a".to_string(), Level::Trace));
    assert_eq!(parse_target("=error"), ("".to_string(), Level::Error));
    assert_eq!(parse_target("a::b=error"), ("a::b".to_string(), Level::Error));
}

#[test]
fn level_defaults_to_trace() {
    assert_eq!(parse_target("a"), ("a".to_string(), Level::Trace));
    assert_eq!(parse_target("a="), ("a".to_string(), Level::Trace));
    assert_eq!(parse_target("a=loud"), ("a".to_string(), Level::Trace));
    assert_eq!(parse_target("a= info"), ("a".to_string(), Level::Trace));
    assert_eq!(parse_target(""), ("".to_string(), Level::Trace));
}

#[test]
fn level_is_read_as_tracing_reads_it() {
    assert_eq!(parse_target("a=error").1, Level::Error);
    assert_eq!(parse_target("a=warn").1, Level::Warn);
    assert_eq!(parse_target("a=info").1, Level::Info);
    assert_eq!(parse_target("a=debug").1, Level::Debug);
    assert_eq!(parse_target("a=trace").1, Level::Trace);
    assert_eq!(parse_target("a=INFO").1, Level::Info);
    assert_eq!(parse_target("a=2").1, Level::Warn);
    assert_eq!(Level::parse("Debug"), Some(Level::Debug));
    assert_eq!(Level::parse("1"), Some(Level::Error));
    assert_eq!(Level::parse("6"), None);
    assert_eq!(Level::parse("verbose"), None);
    assert_eq!(Level::parse(""), None);
    assert_eq!(Level::threshold_from(""), Level::Trace);
    assert_eq!(Level::threshold_from("warn"), Level::Warn);
}

#[test]
fn empty_entries_match_every_target() {
    let rules = parse_targets("");
    assert_eq!(rules, vec![("".to_string(), Level::Trace)]);
    assert!(check_target(&rules, "anything", Level::Trace));
    let rules = parse_targets("a=error,,b");
    assert_eq!(rules.len(), 3);
    assert_eq!(rules[1], ("".to_string(), Level::Trace));
    let rules = parse_targets("a,");
    assert_eq!(rules, vec![("a".to_string(), Level::Trace), ("".to_string(), Level::Trace)]);
}

#[test]
fn target_must_start_with_the_rule() {
    let rules = parse_targets("pallet::bal=debug");
    assert!(check_target(&rules, "pallet::balances", Level::Debug));
    assert!(check_target(&rules, "pallet::bal", Level::Warn));
    assert!(!check_target(&rules, "pallet::ba", Level::Warn));
    assert!(!check_target(&rules, "my::pallet::balances", Level::Warn));
    assert!(!check_target(&rules, "", Level::Warn));
    assert!(!check_target(&Vec::new(), "pallet", Level::Error));
}

#[test]
fn any_rule_can_let_a_record_pass() {
    let rules = parse_targets("a=error,a::b=debug");
    assert!(check_target(&rules, "a::b::c", Level::Debug));
    assert!(!check_target(&rules, "a::c", Level::Debug));
    assert!(check_target(&rules, "a::c", Level::Error));
}

#[test]
fn non_ascii_filter_text() {
    let rules = parse_targets("größe=warn,日本,x");
    assert_eq!(rules[0], ("größe".to_string(), Level::Warn));
    assert_eq!(rules[1], ("日本".to_string(), Level::Trace));
    assert!(check_target(&rules, "日本語", Level::Trace));
}

#[test]
fn levels_are_ordered_by_verbosity() {
    let order = [Level::Error, Level::Warn, Level::Info, Level::Debug, Level::Trace];
    for (i, low) in order.iter().enumerate() {
        assert_eq!(low.rank() as usize, i + 1);
        for (j, high) in order.iter().enumerate() {
            assert_eq!(low.is_within(*high), i <= j);
        }
    }
}
