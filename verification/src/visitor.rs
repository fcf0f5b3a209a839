//! The attributes of a span or an event: a map from field names to the text
//! of their values.

use rustc_hash::FxHashMap;
use vstd::prelude::*;
use vstd::string::*;
use crate::text::{decimal, decimal_text, signed_decimal, signed_decimal_text};

verus! {

/// The hasher of `rustc_hash`, carried only inside the map's type.
#[verifier::external_type_specification]
#[verifier::external_body]
pub struct ExFxHasher(rustc_hash::FxHasher);

/// The hasher factory that `FxHashMap` is built with, carried only inside the
/// map's type.
#[verifier::external_type_specification]
#[verifier::external_body]
#[verifier::reject_recursive_types(H)]
pub struct ExBuildHasherDefault<H>(std::hash::BuildHasherDefault<H>);

/// A field name with the text of its value.
pub type Pair = (Seq<char>, Seq<char>);

/// Attributes as a mathematical map: for each field name the text of its
/// value.
pub type Attributes = Map<Seq<char>, Seq<char>>;

/// What an attribute map holds.
pub uninterp spec fn attributes_of(map: FxHashMap<String, String>) -> Map<Seq<char>, Seq<char>>;

/// The map without attributes.
pub open spec fn no_attributes() -> Attributes {
    Map::empty()
}

/// `pairs` names every entry of `map` exactly once, in some order.
pub open spec fn lists(pairs: Seq<Pair>, map: Attributes) -> bool {
    &&& forall|i: int|
        0 <= i < pairs.len() ==> map.contains_pair((#[trigger] pairs[i]).0, pairs[i].1)
    &&& forall|i: int, j: int|
        0 <= i < j < pairs.len() ==> (#[trigger] pairs[i]).0 != (#[trigger] pairs[j]).0
    &&& forall|key: Seq<char>| #[trigger]
        map.contains_key(key) ==> exists|i: int|
            0 <= i < pairs.len() && (#[trigger] pairs[i]).0 == key
}

/// The pairs that a vector of owned strings stands for.
pub open spec fn pairs_of(entries: Seq<(String, String)>) -> Seq<Pair> {
    entries.map_values(|entry: (String, String)| (entry.0@, entry.1@))
}

/// Calls `FxHashMap::default`: the new map is empty.
#[verifier::external_body]
fn fx_empty() -> (fresh: FxHashMap<String, String>)
    ensures
        attributes_of(fresh) == no_attributes(),
{
    FxHashMap::default()
}

/// Calls `HashMap::insert`: the key maps to the new value afterwards, whether
/// or not it was present, and no other entry changes.
#[verifier::external_body]
fn fx_insert(map: &mut FxHashMap<String, String>, key: String, value: String)
    ensures
        attributes_of(*final(map)) == attributes_of(*old(map)).insert(key@, value@),
{
    map.insert(key, value);
}

/// Calls `HashMap::remove`: the key is absent afterwards, no other entry
/// changes, and the value that the key had is returned.
#[verifier::external_body]
fn fx_remove(map: &mut FxHashMap<String, String>, key: &str) -> (value: Option<String>)
    ensures
        attributes_of(*final(map)) == attributes_of(*old(map)).remove(key@),
        match value {
            Some(text) => attributes_of(*old(map)).contains_pair(key@, text@),
            None => !attributes_of(*old(map)).contains_key(key@),
        },
{
    map.remove(key)
}

/// Calls `HashMap::get`: the value of the key, where it is present.
#[verifier::external_body]
fn fx_get<'a>(map: &'a FxHashMap<String, String>, key: &str) -> (value: Option<&'a String>)
    ensures
        match value {
            Some(text) => attributes_of(*map).contains_pair(key@, text@),
            None => !attributes_of(*map).contains_key(key@),
        },
{
    map.get(key)
}

/// Calls `HashMap::is_empty`.
#[verifier::external_body]
fn fx_is_empty(map: &FxHashMap<String, String>) -> (empty: bool)
    ensures
        empty == (attributes_of(*map) == no_attributes()),
{
    map.is_empty()
}

/// Walks the map with `HashMap::iter` and copies each entry. The iterator
/// visits every entry once; in which order is left open.
#[verifier::external_body]
fn fx_entries(map: &FxHashMap<String, String>) -> (entries: Vec<(String, String)>)
    ensures
        lists(pairs_of(entries@), attributes_of(*map)),
{
    map.iter().map(|(key, value)| (key.clone(), value.clone())).collect()
}

/// Attributes recorded for a span or an event. Every value is kept as text; a
/// later value for a name replaces the earlier one.
#[derive(Clone, Debug)]
pub struct Visitor(FxHashMap<String, String>);

impl View for Visitor {
    type V = Attributes;

    closed spec fn view(&self) -> Attributes {
        attributes_of(self.0)
    }
}

/// The text under which a boolean is recorded.
pub open spec fn bool_text(value: bool) -> Seq<char> {
    if value {
        "true"@
    } else {
        "false"@
    }
}

/// `first`, overwritten and extended by the pairs in the order given.
pub open spec fn with_pairs(first: Attributes, pairs: Seq<Pair>) -> Attributes
    decreases pairs.len(),
{
    if pairs.len() == 0 {
        first
    } else {
        with_pairs(first, pairs.drop_last()).insert(pairs.last().0, pairs.last().1)
    }
}

/// The text `name=value` of each pair, separated by `", "`.
pub open spec fn joined(pairs: Seq<Pair>) -> Seq<char>
    decreases pairs.len(),
{
    if pairs.len() == 0 {
        Seq::empty()
    } else if pairs.len() == 1 {
        pairs[0].0 + "="@ + pairs[0].1
    } else {
        joined(pairs.drop_last()) + ", "@ + pairs.last().0 + "="@ + pairs.last().1
    }
}

/// `text` prints the attributes, each once, in some order.
pub open spec fn prints_values(text: Seq<char>, values: Attributes) -> bool {
    exists|pairs: Seq<Pair>| lists(pairs, values) && text == #[trigger] joined(pairs)
}

impl Visitor {
    /// A visitor without attributes.
    pub fn new() -> (visitor: Visitor)
        ensures
            visitor@ == no_attributes(),
    {
        Visitor(fx_empty())
    }

    /// Consumes the visitor and returns the map it is made of.
    pub fn into_inner(self) -> (map: FxHashMap<String, String>)
        ensures
            attributes_of(map) == self@,
    {
        self.0
    }

    /// Records a signed number under `field`, in decimal notation.
    pub fn record_i64(&mut self, field: &str, value: i64)
        ensures
            final(self)@ == old(self)@.insert(field@, signed_decimal(value as int)),
    {
        fx_insert(&mut self.0, field.to_owned(), signed_decimal_text(value));
    }

    /// Records an unsigned number under `field`, in decimal notation.
    pub fn record_u64(&mut self, field: &str, value: u64)
        ensures
            final(self)@ == old(self)@.insert(field@, decimal(value as nat)),
    {
        fx_insert(&mut self.0, field.to_owned(), decimal_text(value));
    }

    /// Records a boolean under `field`, as `true` or `false`.
    pub fn record_bool(&mut self, field: &str, value: bool)
        ensures
            final(self)@ == old(self)@.insert(field@, bool_text(value)),
    {
        let text = if value {
            "true"
        } else {
            "false"
        };
        fx_insert(&mut self.0, field.to_owned(), text.to_owned());
    }

    /// Records a piece of text under `field`.
    pub fn record_str(&mut self, field: &str, value: &str)
        ensures
            final(self)@ == old(self)@.insert(field@, value@),
    {
        fx_insert(&mut self.0, field.to_owned(), value.to_owned());
    }

    /// The text recorded under `field`, if any.
    pub fn get(&self, field: &str) -> (value: Option<&String>)
        ensures
            match value {
                Some(text) => self@.contains_pair(field@, text@),
                None => !self@.contains_key(field@),
            },
    {
        fx_get(&self.0, field)
    }

    /// Takes the attribute `field` out and returns the text it had.
    pub fn remove(&mut self, field: &str) -> (value: Option<String>)
        ensures
            final(self)@ == old(self)@.remove(field@),
            match value {
                Some(text) => old(self)@.contains_pair(field@, text@),
                None => !old(self)@.contains_key(field@),
            },
    {
        fx_remove(&mut self.0, field)
    }

    /// Whether nothing is recorded.
    pub fn is_empty(&self) -> (empty: bool)
        ensures
            empty == (self@ == no_attributes()),
    {
        fx_is_empty(&self.0)
    }

    /// The attributes as a list, each once. The order is that in which the
    /// underlying map hands them out and may differ from call to call.
    pub fn entries(&self) -> (entries: Vec<(String, String)>)
        ensures
            lists(pairs_of(entries@), self@),
    {
        fx_entries(&self.0)
    }

    /// Records every pair, in the order given: a later pair for a name
    /// replaces an earlier one.
    pub fn record_all(&mut self, entries: &Vec<(String, String)>)
        ensures
            final(self)@ == with_pairs(old(self)@, pairs_of(entries@)),
    {
        let mut i: usize = 0;
        assert(pairs_of(entries@).take(0) =~= Seq::<Pair>::empty());
        while i < entries.len()
            invariant
                i <= entries.len(),
                self@ == with_pairs(old(self)@, pairs_of(entries@).take(i as int)),
            decreases entries.len() - i,
        {
            let ghost done = pairs_of(entries@).take(i as int);
            let ghost next = pairs_of(entries@).take(i + 1);
            fx_insert(&mut self.0, entries[i].0.clone(), entries[i].1.clone());
            proof {
                assert(next.drop_last() =~= done);
                assert(next.last() == (entries@[i as int].0@, entries@[i as int].1@));
            }
            i += 1;
        }
        assert(pairs_of(entries@).take(i as int) =~= pairs_of(entries@));
    }

    /// Takes over every attribute of `other`; where both hold a name, the
    /// value of `other` stays.
    pub fn merge(&mut self, other: &Visitor)
        ensures
            final(self)@ == old(self)@.union_prefer_right(other@),
    {
        let entries = other.entries();
        let ghost pairs = pairs_of(entries@);
        let mut i: usize = 0;
        while i < entries.len()
            invariant
                i <= entries.len(),
                pairs == pairs_of(entries@),
                lists(pairs, other@),
                forall|key: Seq<char>|
                    self@.contains_key(key) <==> old(self)@.contains_key(key) || exists|j: int|
                        0 <= j < i && (#[trigger] pairs[j]).0 == key,
                forall|key: Seq<char>| #[trigger]
                    self@.contains_key(key) ==> self@[key] == if exists|j: int|
                        0 <= j < i && (#[trigger] pairs[j]).0 == key {
                        other@[key]
                    } else {
                        old(self)@[key]
                    },
            decreases entries.len() - i,
        {
            let ghost before = self@;
            fx_insert(&mut self.0, entries[i].0.clone(), entries[i].1.clone());
            proof {
                let added = pairs[i as int];
                assert(added == (entries@[i as int].0@, entries@[i as int].1@));
                assert(other@.contains_pair(added.0, added.1));
                assert forall|key: Seq<char>|
                    self@.contains_key(key) <==> old(self)@.contains_key(key) || exists|j: int|
                        0 <= j < i + 1 && (#[trigger] pairs[j]).0 == key by {
                    if key == added.0 {
                    } else if before.contains_key(key) {
                    }
                }
                assert forall|key: Seq<char>| #[trigger]
                    self@.contains_key(key) implies self@[key] == if exists|j: int|
                        0 <= j < i + 1 && (#[trigger] pairs[j]).0 == key {
                        other@[key]
                    } else {
                        old(self)@[key]
                    } by {
                    if key == added.0 {
                    } else {
                        assert(before.contains_key(key));
                    }
                }
            }
            i += 1;
        }
        assert(self@ =~= old(self)@.union_prefer_right(other@));
    }

    /// Prints the attributes as `name=value`, separated by `", "`, in the
    /// order in which the underlying map hands them out.
    pub fn render(&self) -> (text: String)
        ensures
            prints_values(text@, self@),
    {
        let entries = self.entries();
        let text = render_entries(&entries);
        assert(lists(pairs_of(entries@), self@) && text@ == joined(pairs_of(entries@)));
        text
    }
}

/// Prints the pairs as `name=value`, separated by `", "`, in the order given.
pub fn render_entries(entries: &Vec<(String, String)>) -> (text: String)
    ensures
        text@ == joined(pairs_of(entries@)),
{
    let mut text = String::new();
    let mut i: usize = 0;
    assert(pairs_of(entries@).take(0) =~= Seq::<Pair>::empty());
    while i < entries.len()
        invariant
            i <= entries.len(),
            text@ == joined(pairs_of(entries@).take(i as int)),
        decreases entries.len() - i,
    {
        let ghost done = pairs_of(entries@).take(i as int);
        let ghost next = pairs_of(entries@).take(i + 1);
        let ghost before = text@;
        if i > 0 {
            text.append(", ");
        }
        text.append(entries[i].0.as_str());
        text.append("=");
        text.append(entries[i].1.as_str());
        proof {
            assert(next.drop_last() =~= done);
            assert(next.last() == (entries@[i as int].0@, entries@[i as int].1@));
            if i == 0 {
                assert(next[0] == next.last());
                assert(before + entries@[0].0@ + "="@ + entries@[0].1@ =~= entries@[0].0@ + "="@
                    + entries@[0].1@);
            }
        }
        i += 1;
    }
    assert(pairs_of(entries@).take(i as int) =~= pairs_of(entries@));
    text
}

} // verus!
