//! Named values: response headers, status fields and settings.

use crate::number::{self, parse_u64};
use crate::text::{self, own_opt, same, split_once, to_ascii_lowercase, trim};
use vstd::prelude::*;

verus! {

/// A map from names to values.
#[derive(Debug, Clone)]
pub struct FieldMap {
    entries: Vec<(String, String)>,
}

/// The map that pairs make when they are inserted in turn.
pub open spec fn map_of(pairs: Seq<(String, String)>) -> Map<Seq<char>, Seq<char>>
    decreases pairs.len(),
{
    if pairs.len() == 0 {
        Map::empty()
    } else {
        map_of(pairs.drop_last()).insert(pairs.last().0@, pairs.last().1@)
    }
}

/// The value of a name, if it has one.
pub open spec fn lookup(m: Map<Seq<char>, Seq<char>>, key: Seq<char>) -> Option<Seq<char>> {
    if m.dom().contains(key) {
        Some(m[key])
    } else {
        None
    }
}

impl View for FieldMap {
    type V = Map<Seq<char>, Seq<char>>;

    closed spec fn view(&self) -> Map<Seq<char>, Seq<char>> {
        map_of(self.entries@)
    }
}

impl FieldMap {
    pub fn new() -> (r: FieldMap)
        ensures
            r@ == Map::<Seq<char>, Seq<char>>::empty(),
    {
        FieldMap { entries: Vec::new() }
    }

    /// Sets the value of a name; a later value takes the place of an earlier one.
    pub fn insert(&mut self, key: String, value: String)
        ensures
            final(self)@ == old(self)@.insert(key@, value@),
    {
        let ghost before = self.entries@;
        self.entries.push((key, value));
        assert(self.entries@.drop_last() =~= before);
    }

    pub fn get(&self, key: &str) -> (r: Option<&str>)
        ensures
            text::str_opt(r) == lookup(self@, key@),
    {
        let mut i: usize = self.entries.len();
        assert(self.entries@.take(i as int) =~= self.entries@);
        while i > 0
            invariant
                i <= self.entries@.len(),
                lookup(self@, key@) == lookup(map_of(self.entries@.take(i as int)), key@),
            decreases i,
        {
            assert(self.entries@.take(i as int).drop_last() =~= self.entries@.take(i - 1));
            if same(&self.entries[i - 1].0, key) {
                return Some(self.entries[i - 1].1.as_str());
            }
            i -= 1;
        }
        None
    }

    /// The value of a name, as a string of its own.
    pub fn owned(&self, key: &str) -> (r: Option<String>)
        ensures
            text::text_opt(r) == lookup(self@, key@),
    {
        own_opt(self.get(key))
    }
}

/// A value read as an unsigned number.
pub open spec fn number_at(m: Map<Seq<char>, Seq<char>>, key: Seq<char>) -> Option<u64> {
    match lookup(m, key) {
        Some(v) => number::parsed_u64(v),
        None => None,
    }
}

impl FieldMap {
    pub fn number(&self, key: &str) -> (r: Option<u64>)
        ensures
            r == number_at(self@, key@),
    {
        match self.get(key) {
            Some(v) => parse_u64(v),
            None => None,
        }
    }
}

/// The map with `key: value` of one line added, both trimmed and the key in lower case; a
/// line without a colon adds nothing.
pub open spec fn with_field_line(
    m: Map<Seq<char>, Seq<char>>,
    line: Seq<char>,
) -> Map<Seq<char>, Seq<char>> {
    match text::split_at_first(line, ":"@) {
        Some((k, v)) => m.insert(text::ascii_lower(text::trimmed(k)), text::trimmed(v)),
        None => m,
    }
}

/// The fields that lines hold.
pub open spec fn fields_of(lines: Seq<Seq<char>>) -> Map<Seq<char>, Seq<char>>
    decreases lines.len(),
{
    if lines.len() == 0 {
        Map::empty()
    } else {
        with_field_line(fields_of(lines.drop_last()), lines.last())
    }
}

/// Reads the fields of the lines from the one at `from` on.
pub fn read_fields(lines: &Vec<String>, from: usize) -> (r: FieldMap)
    requires
        from <= lines@.len(),
    ensures
        r@ == fields_of(text::texts(lines@).skip(from as int)),
{
    let ghost all = text::texts(lines@).skip(from as int);
    let mut map = FieldMap::new();
    let mut i: usize = from;
    while i < lines.len()
        invariant
            from <= i <= lines@.len(),
            all == text::texts(lines@).skip(from as int),
            map@ == fields_of(all.take(i - from)),
        decreases lines@.len() - i,
    {
        assert(all.take(i - from + 1).drop_last() =~= all.take(i - from));
        assert(all.take(i - from + 1).last() == lines@[i as int]@);
        if let Some((k, v)) = split_once(&lines[i], ":") {
            map.insert(to_ascii_lowercase(&trim(&k)), trim(&v));
        }
        i += 1;
    }
    assert(all.take(i - from) =~= all);
    map
}

/// A line with a colon sets the name before the first one, trimmed and in lower case, to the
/// value behind it, trimmed; a line without one sets nothing.
pub proof fn law_field_lines(lines: Seq<Seq<char>>, line: Seq<char>)
    ensures
        ({
            let at = text::split_at_first(line, ":"@);
            let before = fields_of(lines);
            let after = fields_of(lines.push(line));
            &&& at is None ==> after == before
            &&& at is Some ==> after == before.insert(
                text::ascii_lower(text::trimmed((at->0).0)),
                text::trimmed((at->0).1),
            )
        }),
{
    assert(lines.push(line).drop_last() =~= lines);
}

} // verus!
