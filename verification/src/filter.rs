//! Target filter: which (target, level) pairs are worth recording.
//!
//! A filter is written as comma-separated entries, each `target` or
//! `target=level`. A record passes when some entry's target is a prefix of the
//! record's target and the record is not more verbose than that entry's level.

use vstd::prelude::*;
use vstd::string::*;
use crate::level::{threshold_of, Level};
use crate::text::{find_from, position, str_starts_with};

verus! {

/// One parsed entry: a target prefix and the most verbose level it lets pass.
pub type Rule = (Seq<char>, Level);

/// The rule that one entry of a filter string stands for. The entry is cut at
/// its first `=`; without one the whole entry is the target and the level is
/// `Trace`.
pub open spec fn entry_rule(entry: Seq<char>) -> Rule {
    let at = position(entry, '=');
    if 0 <= at < entry.len() {
        (entry.subrange(0, at), threshold_of(entry.subrange(at + 1, entry.len() as int)))
    } else {
        (entry, Level::Trace)
    }
}

/// The rules of a filter string, one for each comma-separated entry, in the
/// order in which they are written. A string without a comma is one entry,
/// the empty string too.
pub open spec fn split_rules(text: Seq<char>) -> Seq<Rule>
    decreases text.len(),
{
    let at = position(text, ',');
    if 0 <= at < text.len() {
        seq![entry_rule(text.subrange(0, at))] + split_rules(
            text.subrange(at + 1, text.len() as int),
        )
    } else {
        seq![entry_rule(text)]
    }
}

/// Whether a single rule lets a record with this target and level pass.
pub open spec fn rule_allows(rule: Rule, target: Seq<char>, level: Level) -> bool {
    rule.0.is_prefix_of(target) && level.passes(rule.1)
}

/// Whether some rule lets a record with this target and level pass.
pub open spec fn allows(rules: Seq<Rule>, target: Seq<char>, level: Level) -> bool {
    exists|i: int| 0 <= i < rules.len() && rule_allows(#[trigger] rules[i], target, level)
}

/// The rules that a vector of parsed entries holds.
pub open spec fn rules_of(entries: Seq<(String, Level)>) -> Seq<Rule> {
    entries.map_values(|entry: (String, Level)| (entry.0@, entry.1))
}

/// Parses one entry of a filter string. The level defaults to `Trace` where
/// none is given or the text behind `=` names none.
pub fn parse_target(s: &str) -> (rule: (String, Level))
    ensures
        (rule.0@, rule.1) == entry_rule(s@),
{
    let total = s.unicode_len();
    let at = find_from(s, 0, '=');
    assert(s@.subrange(0, s@.len() as int) =~= s@);
    if at < total {
        let target = s.substring_char(0, at).to_owned();
        let level = Level::threshold_from(s.substring_char(at + 1, total));
        (target, level)
    } else {
        (s.to_owned(), Level::Trace)
    }
}

/// Parses a whole filter string into its entries.
pub fn parse_targets(targets: &str) -> (entries: Vec<(String, Level)>)
    ensures
        rules_of(entries@) == split_rules(targets@),
{
    let total = targets.unicode_len();
    let mut entries: Vec<(String, Level)> = Vec::new();
    let mut start: usize = 0;
    assert(targets@.subrange(0, total as int) =~= targets@);
    assert(rules_of(entries@) =~= Seq::<Rule>::empty());
    loop
        invariant_except_break
            start <= total,
            split_rules(targets@) == rules_of(entries@) + split_rules(
                targets@.subrange(start as int, total as int),
            ),
        invariant
            total == targets@.len(),
        ensures
            rules_of(entries@) == split_rules(targets@),
        decreases total - start,
    {
        let ghost tail = targets@.subrange(start as int, total as int);
        let ghost before = entries@;
        let end = find_from(targets, start, ',');
        let entry = parse_target(targets.substring_char(start, end));
        entries.push(entry);
        proof {
            assert(targets@.subrange(start as int, end as int) =~= tail.subrange(
                0,
                end - start,
            ));
            assert(rules_of(entries@) =~= rules_of(before).push((entry.0@, entry.1)));
            if end < total {
                assert(tail.subrange(end - start + 1, tail.len() as int) =~= targets@.subrange(
                    end + 1,
                    total as int,
                ));
                assert(rules_of(before) + (seq![entry_rule(tail.subrange(0, end - start))]
                    + split_rules(targets@.subrange(end + 1, total as int))) =~= rules_of(
                    entries@,
                ) + split_rules(targets@.subrange(end + 1, total as int)));
            } else {
                assert(tail.subrange(0, end - start) =~= tail);
                assert(rules_of(before) + seq![entry_rule(tail)] =~= rules_of(entries@));
            }
        }
        if end >= total {
            break ;
        }
        start = end + 1;
    }
    entries
}

/// Decides whether some entry lets a record with this target and level pass.
pub fn check_target(entries: &Vec<(String, Level)>, target: &str, level: Level) -> (enabled: bool)
    ensures
        enabled == allows(rules_of(entries@), target@, level),
{
    let mut i: usize = 0;
    while i < entries.len()
        invariant
            i <= entries.len(),
            forall|j: int|
                0 <= j < i ==> !rule_allows(#[trigger] rules_of(entries@)[j], target@, level),
        decreases entries.len() - i,
    {
        assert(rules_of(entries@)[i as int] == (entries@[i as int].0@, entries@[i as int].1));
        if str_starts_with(target, entries[i].0.as_str()) && level.is_within(entries[i].1) {
            return true;
        }
        i += 1;
    }
    false
}

} // verus!
