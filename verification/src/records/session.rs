//! Small parts of the session start: the shard of the session and the notes on users.

use crate::access::expect_map;
use crate::access::expect_sequence;
use crate::access::expect_string;
use crate::access::expect_u64;
use crate::access::expect_u64_spec;
use crate::decode::Decode;
use crate::error::Error;
use crate::error::Shape;
use crate::keyed::models_of;
use crate::keyed::IdMap;
use crate::text::parse_u64;
use crate::text::parse_u64_spec;
use crate::value::Value;
use vstd::prelude::*;

verus! {

/// The shard that a session runs on, and how many shards there are.
#[derive(Clone, Copy, Debug, PartialEq, Eq, Structural)]
pub struct ShardInfo {
    /// The number of this shard.
    pub index: u64,
    /// The number of shards in all.
    pub total: u64,
}

impl DeepView for ShardInfo {
    type V = ShardInfo;

    open spec fn deep_view(&self) -> ShardInfo {
        *self
    }
}

impl Decode for ShardInfo {
    /// A shard is given as a sequence whose first two values are unsigned 64-bit numbers:
    /// the number of the shard, then the number of shards. A shorter sequence is a mismatch
    /// naming `Shape::Pair`.
    open spec fn decoded(value: Value) -> Result<ShardInfo, Error> {
        match value {
            Value::Sequence(items) => if items@.len() < 2 {
                Err(Error::mismatch(Shape::Pair))
            } else {
                match expect_u64_spec(items@[0]) {
                    Err(e) => Err(e),
                    Ok(index) => match expect_u64_spec(items@[1]) {
                        Err(e) => Err(e),
                        Ok(total) => Ok(ShardInfo { index, total }),
                    },
                }
            },
            _ => Err(Error::mismatch(Shape::Sequence)),
        }
    }

    fn decode(value: Value) -> (r: Result<ShardInfo, Error>) {
        let mut items = expect_sequence(value)?;
        if items.len() < 2 {
            return Err(Error::TypeMismatch(Shape::Pair, None));
        }
        let second = items.swap_remove(1);
        let first = items.swap_remove(0);
        let index = expect_u64(first)?;
        let total = expect_u64(second)?;
        Ok(ShardInfo { index, total })
    }
}

/// The notes that the current user wrote on other users, each under the id of its user.
#[derive(Clone, Debug, PartialEq, Eq)]
pub struct Notes(pub IdMap<String>);

impl DeepView for Notes {
    type V = Map<u64, Seq<char>>;

    open spec fn deep_view(&self) -> Map<u64, Seq<char>> {
        self.0.deep_view()
    }
}

/// What the entries of a mapping give as notes, read in their order: each key is the decimal
/// numeral of a user's id, each value the string of the note. The first entry whose key is
/// no such numeral, or whose value is no string, gives the error.
pub open spec fn notes_of(entries: Seq<(String, Value)>) -> Result<Map<u64, Seq<char>>, Error>
    decreases entries.len(),
{
    if entries.len() == 0 {
        Ok(Map::empty())
    } else {
        match notes_of(entries.drop_last()) {
            Err(e) => Err(e),
            Ok(notes) => match parse_u64_spec(entries.last().0@) {
                None => Err(Error::mismatch(Shape::Identifier)),
                Some(id) => match entries.last().1 {
                    Value::Text(note) => Ok(notes.insert(id, note@)),
                    _ => Err(Error::mismatch(Shape::Text)),
                },
            },
        }
    }
}

/// An error among the first `n` entries is the error of all the entries.
pub proof fn lemma_notes_error_stays(entries: Seq<(String, Value)>, n: int)
    requires
        0 <= n <= entries.len(),
        notes_of(entries.take(n)) is Err,
    ensures
        notes_of(entries) == notes_of(entries.take(n)),
    decreases entries.len() - n,
{
    if n == entries.len() {
        assert(entries.take(n) =~= entries);
    } else {
        assert(entries.take(n + 1).drop_last() =~= entries.take(n));
        lemma_notes_error_stays(entries, n + 1);
    }
}

impl Notes {
    /// No notes at all.
    pub fn new() -> (r: Notes)
        ensures
            r.deep_view() == Map::<u64, Seq<char>>::empty(),
    {
        let r = Notes(IdMap::new());
        assert(r.deep_view() =~= Map::<u64, Seq<char>>::empty());
        r
    }
}

impl Decode for Notes {
    open spec fn decoded(value: Value) -> Result<Map<u64, Seq<char>>, Error> {
        match value {
            Value::Mapping(source) => notes_of(source.entries()),
            _ => Err(Error::mismatch(Shape::Mapping)),
        }
    }

    fn decode(value: Value) -> (r: Result<Notes, Error>) {
        let source = expect_map(value)?;
        let entries = source.into_entries();
        let ghost all = entries@;
        let mut notes: IdMap<String> = IdMap::new();
        assert(models_of(notes@) =~= Map::<u64, Seq<char>>::empty());
        for entry in it: entries
            invariant
                it.seq() == all,
                value matches Value::Mapping(given) && given.entries() == all,
                notes_of(all.take(it.index() as int)) == Ok::<Map<u64, Seq<char>>, Error>(
                    models_of(notes@),
                ),
        {
            let ghost k = it.index() as int;
            proof {
                assert(all.take(k + 1).drop_last() =~= all.take(k));
                assert(all.take(k + 1).last() == entry);
            }
            let (key, value) = entry;
            let id = match parse_u64(key.as_str()) {
                Some(id) => id,
                None => {
                    proof {
                        lemma_notes_error_stays(all, k + 1);
                    }
                    return Err(Error::TypeMismatch(Shape::Identifier, None));
                },
            };
            let note = match expect_string(value) {
                Ok(note) => note,
                Err(e) => {
                    proof {
                        lemma_notes_error_stays(all, k + 1);
                    }
                    return Err(e);
                },
            };
            let ghost before = notes@;
            notes.insert(id, note);
            assert(models_of(notes@) =~= models_of(before).insert(id, note@));
        }
        assert(all.take(all.len() as int) =~= all);
        Ok(Notes(notes))
    }
}

} // verus!
