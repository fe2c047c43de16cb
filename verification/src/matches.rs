//! The values that a parsed command line gave to the arguments of one
//! subcommand, by argument name.

use vstd::prelude::*;
use crate::text::{same_text, text_view};

verus! {

/// The value recorded in `values` under `name`, if there is one.
pub open spec fn lookup(values: Map<Seq<char>, Seq<char>>, name: Seq<char>) -> Option<Seq<char>> {
    if values.contains_key(name) {
        Some(values[name])
    } else {
        None
    }
}

/// The matched arguments of one subcommand: a map from an argument's
/// name to the value it was given. An argument that was not given has no
/// entry.
#[derive(Debug, Clone)]
pub struct Matches {
    entries: Vec<(String, String)>,
}

/// The map that a list of entries stands for: a later entry replaces an
/// earlier one of the same name.
spec fn entries_map(entries: Seq<(String, String)>) -> Map<Seq<char>, Seq<char>>
    decreases entries.len(),
{
    if entries.len() == 0 {
        Map::empty()
    } else {
        entries_map(entries.drop_last()).insert(entries.last().0@, entries.last().1@)
    }
}

/// Entries from `from` on that do not bear `name` do not affect what is
/// recorded under `name`.
proof fn lemma_lookup_ignores_others(entries: Seq<(String, String)>, from: int, name: Seq<char>)
    requires
        0 <= from <= entries.len(),
        forall|k: int| from <= k < entries.len() ==> (#[trigger] entries[k]).0@ != name,
    ensures
        lookup(entries_map(entries), name) == lookup(entries_map(entries.take(from)), name),
    decreases entries.len() - from,
{
    if from == entries.len() {
        assert(entries.take(from) =~= entries);
    } else {
        let shorter = entries.drop_last();
        assert(entries.last() == entries[entries.len() - 1]);
        assert(shorter.take(from) =~= entries.take(from));
        assert forall|k: int| from <= k < shorter.len() implies (#[trigger] shorter[k]).0@
            != name by {
            assert(shorter[k] == entries[k]);
        }
        lemma_lookup_ignores_others(shorter, from, name);
    }
}

impl View for Matches {
    type V = Map<Seq<char>, Seq<char>>;

    closed spec fn view(&self) -> Map<Seq<char>, Seq<char>> {
        entries_map(self.entries@)
    }
}

impl Matches {
    /// No argument was given.
    pub fn new() -> (r: Matches)
        ensures
            r@ == Map::<Seq<char>, Seq<char>>::empty(),
    {
        Matches { entries: Vec::new() }
    }

    /// Records `value` under `name`, in place of any value recorded under
    /// that name before.
    pub fn insert(&mut self, name: &str, value: &str)
        ensures
            final(self)@ == old(self)@.insert(name@, value@),
    {
        let ghost before = self.entries@;
        self.entries.push((name.to_owned(), value.to_owned()));
        assert(self.entries@.drop_last() =~= before);
    }

    /// The value given to the argument `name`, or `None` where that
    /// argument was not given.
    pub fn value_of(&self, name: &str) -> (r: Option<&str>)
        ensures
            text_view(r) == lookup(self@, name@),
    {
        let mut i: usize = self.entries.len();
        while i > 0
            invariant
                i <= self.entries@.len(),
                forall|k: int| i <= k < self.entries@.len() ==> (#[trigger] self.entries@[k]).0@ != name@,
            decreases i,
        {
            i = i - 1;
            if same_text(self.entries[i].0.as_str(), name) {
                proof {
                    lemma_lookup_ignores_others(self.entries@, i + 1, name@);
                    assert(self.entries@.take(i + 1).last() == self.entries@[i as int]);
                }
                return Some(self.entries[i].1.as_str());
            }
        }
        proof {
            lemma_lookup_ignores_others(self.entries@, 0, name@);
            assert(self.entries@.take(0) =~= Seq::<(String, String)>::empty());
        }
        None
    }

    /// Whether the argument `name` was given.
    pub fn is_present(&self, name: &str) -> (r: bool)
        ensures
            r == self@.contains_key(name@),
    {
        self.value_of(name).is_some()
    }
}

} // verus!
