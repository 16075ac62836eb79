//! The dynamic value that every decoder consumes, and the mapping it may hold.

use crate::text::same_text;
use vstd::prelude::*;

verus! {

/// A self-describing value: what a parsed JSON document, or a like payload, holds.
#[derive(Debug, PartialEq)]
pub enum Value {
    /// The absent value.
    Null,
    /// A boolean.
    Bool(bool),
    /// An integer.
    Integer(i128),
    /// A floating-point number, held as the bits of its IEEE 754 binary64 form.
    Float(u64),
    /// A string.
    Text(String),
    /// An ordered sequence of values.
    Sequence(Vec<Value>),
    /// A mapping from string keys to values.
    Mapping(Mapping),
}

/// A mapping from string keys to values, each key held once.
#[derive(Debug, PartialEq)]
pub struct Mapping {
    entries: Vec<(String, Value)>,
}

/// Whether some entry of `entries` has the key `key`.
pub open spec fn has_key(entries: Seq<(String, Value)>, key: Seq<char>) -> bool {
    exists|i: int| 0 <= i < entries.len() && (#[trigger] entries[i]).0@ == key
}

/// The place of an entry of `entries` with the key `key`.
pub open spec fn place_of(entries: Seq<(String, Value)>, key: Seq<char>) -> int {
    choose|i: int| 0 <= i < entries.len() && (#[trigger] entries[i]).0@ == key
}

/// Whether no two entries of `entries` share a key.
pub open spec fn keys_distinct(entries: Seq<(String, Value)>) -> bool {
    forall|i: int, j: int|
        0 <= i < j < entries.len() ==> (#[trigger] entries[i]).0@ != (#[trigger] entries[j]).0@
}

/// The entries without the one that has the key `key`, if there is one.
pub open spec fn entries_without(entries: Seq<(String, Value)>, key: Seq<char>) -> Seq<
    (String, Value),
> {
    if has_key(entries, key) {
        entries.remove(place_of(entries, key))
    } else {
        entries
    }
}

/// The mapping that a sequence of entries stands for: each key with the value beside it.
pub open spec fn entries_map(entries: Seq<(String, Value)>) -> Map<Seq<char>, Value> {
    Map::new(
        |key: Seq<char>| has_key(entries, key),
        |key: Seq<char>| entries[place_of(entries, key)].1,
    )
}

impl View for Mapping {
    type V = Map<Seq<char>, Value>;

    open spec fn view(&self) -> Map<Seq<char>, Value> {
        entries_map(self.entries())
    }
}

impl Mapping {
    #[verifier::type_invariant]
    spec fn well_formed(self) -> bool {
        keys_distinct(self.entries@)
    }

    /// The entries of the mapping, in the order in which their keys were last put in.
    pub closed spec fn entries(&self) -> Seq<(String, Value)> {
        self.entries@
    }

    /// The mapping without any key.
    pub fn new() -> (r: Mapping)
        ensures
            r@ == Map::<Seq<char>, Value>::empty(),
            r.entries() == Seq::<(String, Value)>::empty(),
    {
        let r = Mapping { entries: Vec::new() };
        assert(r@ =~= Map::<Seq<char>, Value>::empty());
        r
    }

    /// Whether the mapping holds no key.
    pub fn is_empty(&self) -> (r: bool)
        ensures
            r == (self@ == Map::<Seq<char>, Value>::empty()),
    {
        let r = self.entries.len() == 0;
        proof {
            if r {
                assert(self@ =~= Map::<Seq<char>, Value>::empty());
            } else {
                assert(has_key(self.entries@, self.entries@[0].0@));
                assert(self@.contains_key(self.entries@[0].0@));
            }
        }
        r
    }

    /// The number of keys that the mapping holds.
    pub fn len(&self) -> (r: usize)
        ensures
            r == self.entries().len(),
    {
        self.entries.len()
    }

    /// The place of the entry with the key `key`, if there is one.
    fn find(&self, key: &str) -> (r: Option<usize>)
        ensures
            match r {
                Some(i) => i < self.entries@.len() && self.entries@[i as int].0@ == key@,
                None => !has_key(self.entries@, key@),
            },
    {
        let n = self.entries.len();
        let mut i: usize = 0;
        while i < n
            invariant
                i <= n,
                n == self.entries@.len(),
                forall|j: int| 0 <= j < i ==> (#[trigger] self.entries@[j]).0@ != key@,
            decreases n - i,
        {
            if same_text(self.entries[i].0.as_str(), key) {
                return Some(i);
            }
            i += 1;
        }
        None
    }

    /// Whether the mapping holds the key `key`.
    pub fn contains_key(&self, key: &str) -> (r: bool)
        ensures
            r == self@.contains_key(key@),
    {
        self.find(key).is_some()
    }

    /// The value under `key`, if the mapping holds the key.
    pub fn get(&self, key: &str) -> (r: Option<&Value>)
        ensures
            r == (if self@.contains_key(key@) {
                Some(&self@[key@])
            } else {
                None
            }),
    {
        proof {
            use_type_invariant(self);
        }
        match self.find(key) {
            Some(i) => {
                assert(has_key(self.entries@, key@));
                assert(place_of(self.entries@, key@) == i as int);
                Some(&self.entries[i].1)
            },
            None => None,
        }
    }

    /// The entries of the mapping, in the order in which their keys were last put in. No two
    /// of them share a key.
    pub fn into_entries(self) -> (r: Vec<(String, Value)>)
        ensures
            r@ == self.entries(),
            keys_distinct(r@),
    {
        proof {
            use_type_invariant(&self);
        }
        self.entries
    }

    /// Takes the value under `key` out of the mapping, with its key. The other entries keep
    /// their order.
    pub fn remove(&mut self, key: &str) -> (r: Option<Value>)
        ensures
            final(self)@ == old(self)@.remove(key@),
            final(self).entries() == entries_without(old(self).entries(), key@),
            keys_distinct(final(self).entries()),
            r == (if old(self)@.contains_key(key@) {
                Some(old(self)@[key@])
            } else {
                None
            }),
    {
        proof {
            use_type_invariant(&*self);
        }
        match self.find(key) {
            Some(i) => {
                let ghost before = self.entries@;
                let mut entries: Vec<(String, Value)> = Vec::new();
                core::mem::swap(&mut self.entries, &mut entries);
                let entry = entries.remove(i);
                let ghost after = entries@;
                assert(keys_distinct(after)) by {
                    assert forall|a: int, b: int| 0 <= a < b < after.len() implies (
                    #[trigger] after[a]).0@ != (#[trigger] after[b]).0@ by {
                        let a0 = if a < i { a } else { a + 1 };
                        let b0 = if b < i { b } else { b + 1 };
                        assert(before[a0].0@ != before[b0].0@);
                    }
                }
                core::mem::swap(&mut self.entries, &mut entries);
                proof {
                    assert(has_key(before, key@));
                    assert(place_of(before, key@) == i as int);
                    assert forall|k: Seq<char>| has_key(after, k) == (k != key@ && has_key(
                        before,
                        k,
                    )) by {
                        if has_key(after, k) {
                            let j = place_of(after, k);
                            if j < i {
                                assert(before[j].0@ == k);
                            } else {
                                assert(before[j + 1].0@ == k);
                            }
                        }
                        if k != key@ && has_key(before, k) {
                            let j = place_of(before, k);
                            if j < i {
                                assert(after[j].0@ == k);
                            } else {
                                assert(after[j - 1].0@ == k);
                            }
                        }
                    }
                    assert forall|k: Seq<char>| has_key(after, k) implies after[place_of(
                        after,
                        k,
                    )].1 == before[place_of(before, k)].1 by {
                        let j = place_of(after, k);
                        let j0 = if j < i {
                            j
                        } else {
                            j + 1
                        };
                        assert(before[j0].0@ == k);
                        assert(place_of(before, k) == j0);
                    }
                    assert(self@ =~= old(self)@.remove(key@));
                }
                Some(entry.1)
            },
            None => {
                assert(self@ =~= old(self)@.remove(key@));
                None
            },
        }
    }

    /// Puts `value` under `key`, in place of the value that the key held, which is returned.
    /// The new entry comes last; the other entries keep their order.
    pub fn insert(&mut self, key: String, value: Value) -> (r: Option<Value>)
        ensures
            final(self)@ == old(self)@.insert(key@, value),
            final(self).entries() == entries_without(old(self).entries(), key@).push(
                (key, value),
            ),
            keys_distinct(final(self).entries()),
            r == (if old(self)@.contains_key(key@) {
                Some(old(self)@[key@])
            } else {
                None
            }),
    {
        let previous = self.remove(key.as_str());
        proof {
            use_type_invariant(&*self);
        }
        let ghost before = self.entries@;
        let ghost middle = self@;
        assert(!has_key(before, key@)) by {
            assert(!middle.contains_key(key@));
        }
        let mut entries: Vec<(String, Value)> = Vec::new();
        core::mem::swap(&mut self.entries, &mut entries);
        entries.push((key, value));
        let ghost after = entries@;
        assert(keys_distinct(after)) by {
            assert forall|a: int, b: int| 0 <= a < b < after.len() implies (#[trigger] after[a]).0@
                != (#[trigger] after[b]).0@ by {
                if b == after.len() - 1 {
                    assert(before[a].0@ != key@);
                } else {
                    assert(before[a].0@ != before[b].0@);
                }
            }
        }
        core::mem::swap(&mut self.entries, &mut entries);
        proof {
            let last = after.len() - 1;
            assert(after[last].0@ == key@);
            assert forall|k: Seq<char>| has_key(after, k) == (k == key@ || has_key(before, k)) by {
                if has_key(after, k) {
                    let j = place_of(after, k);
                    if j < last {
                        assert(before[j].0@ == k);
                    }
                }
                if has_key(before, k) {
                    let j = place_of(before, k);
                    assert(after[j].0@ == k);
                }
            }
            assert forall|k: Seq<char>| has_key(before, k) implies after[place_of(after, k)].1
                == before[place_of(before, k)].1 by {
                let j = place_of(before, k);
                assert(after[j].0@ == k);
                assert(place_of(after, k) == j);
            }
            assert(place_of(after, key@) == last);
            assert(self@ =~= middle.insert(key@, value));
            assert(self@ =~= old(self)@.insert(key@, value));
        }
        previous
    }
}

} // verus!
