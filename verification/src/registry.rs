//! A small string-keyed map with last-write-wins semantics, viewed as a
//! `Map<Seq<char>, Seq<char>>`.
//!
//! Entries are kept in insertion order; a lookup takes the value of the
//! latest entry whose key matches, so inserting an existing key overwrites
//! its binding in the view.

use vstd::prelude::*;

use crate::text::str_eq;

verus! {

/// The map described by an ordered sequence of `(key, value)` entries,
/// where a later entry overwrites an earlier one with the same key.
pub open spec fn assoc_map(entries: Seq<(String, String)>) -> Map<Seq<char>, Seq<char>>
    decreases entries.len(),
{
    if entries.len() == 0 {
        Map::empty()
    } else {
        assoc_map(entries.drop_last()).insert(entries.last().0@, entries.last().1@)
    }
}

/// Entries past position `i` whose keys miss `k` do not affect the binding
/// of `k`.
proof fn lemma_assoc_map_absent_suffix(entries: Seq<(String, String)>, i: int, k: Seq<char>)
    requires
        0 <= i <= entries.len(),
        forall|j: int| i <= j < entries.len() ==> entries[j].0@ != k,
    ensures
        assoc_map(entries).contains_key(k) == assoc_map(entries.take(i)).contains_key(k),
        assoc_map(entries).contains_key(k) ==> assoc_map(entries)[k] == assoc_map(
            entries.take(i),
        )[k],
    decreases entries.len() - i,
{
    if i == entries.len() {
        assert(entries.take(i) =~= entries);
    } else {
        lemma_assoc_map_absent_suffix(entries.drop_last(), i, k);
        assert(entries.drop_last().take(i) =~= entries.take(i));
    }
}

/// A mapping from strings to strings, built once by repeated insertion.
pub struct StringMap {
    entries: Vec<(String, String)>,
}

impl View for StringMap {
    type V = Map<Seq<char>, Seq<char>>;

    closed spec fn view(&self) -> Map<Seq<char>, Seq<char>> {
        assoc_map(self.entries@)
    }
}

impl StringMap {
    /// An empty map.
    pub fn new() -> (r: Self)
        ensures
            r@ == Map::<Seq<char>, Seq<char>>::empty(),
    {
        StringMap { entries: Vec::new() }
    }

    /// Bind `k` to `v`, overwriting any earlier binding of `k`.
    pub fn insert(&mut self, k: &String, v: &String)
        ensures
            final(self)@ == old(self)@.insert(k@, v@),
    {
        self.entries.push((k.clone(), v.clone()));
        proof {
            assert(self.entries@.drop_last() =~= old(self).entries@);
        }
    }

    /// The value bound to `k`, or nothing when `k` is not a key.
    pub fn get(&self, k: &str) -> (r: Option<String>)
        ensures
            match r {
                Some(v) => self@.contains_key(k@) && v@ == self@[k@],
                None => !self@.contains_key(k@),
            },
    {
        let n = self.entries.len();
        let mut i: usize = n;
        while i > 0
            invariant
                i <= n,
                n == self.entries@.len(),
                forall|j: int| i <= j < n ==> self.entries@[j].0@ != k@,
            decreases i,
        {
            i -= 1;
            if str_eq(self.entries[i].0.as_str(), k) {
                proof {
                    lemma_assoc_map_absent_suffix(self.entries@, i + 1, k@);
                    assert(self.entries@.take(i + 1).drop_last() =~= self.entries@.take(i as int));
                    assert(self.entries@.take(i + 1).last() == self.entries@[i as int]);
                }
                return Some(self.entries[i].1.clone());
            }
        }
        proof {
            lemma_assoc_map_absent_suffix(self.entries@, 0, k@);
            assert(self.entries@.take(0) =~= Seq::<(String, String)>::empty());
        }
        None
    }

    /// Is `k` a key of the map?
    pub fn contains_key(&self, k: &str) -> (r: bool)
        ensures
            r == self@.contains_key(k@),
    {
        match self.get(k) {
            Some(_) => true,
            None => false,
        }
    }
}

} // verus!
