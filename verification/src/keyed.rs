//! Collections of records kept under the number of each record's own identifier.

use crate::combine::accepted_each;
use crate::combine::accepts;
use crate::combine::decode_sequence;
use crate::combine::decoded_each;
use crate::decode::decoded_items;
use crate::decode::lemma_decoded_items_err;
use crate::decode::lemma_decoded_items_ok;
use crate::decode::Decode;
use crate::error::Error;
use crate::error::Shape;
use crate::value::Value;
use std::collections::HashMap;
use vstd::prelude::*;

verus! {

broadcast use vstd::std_specs::hash::group_hash_axioms;

/// A record that carries the identifier under which a collection keeps it.
pub trait Keyed: DeepView {
    /// The number of the identifier of a record, read from the record's model.
    spec fn key_of(model: <Self as DeepView>::V) -> u64;

    /// The number of this record's identifier.
    fn key(&self) -> (r: u64)
        ensures
            r == Self::key_of(self.deep_view()),
    ;
}

/// A collection of values, each kept under the number of an identifier.
#[derive(Clone, Debug, PartialEq, Eq)]
pub struct IdMap<T> {
    entries: HashMap<u64, T>,
}

impl<T> View for IdMap<T> {
    type V = Map<u64, T>;

    closed spec fn view(&self) -> Map<u64, T> {
        self.entries@
    }
}

/// The models of the values of `entries`, under the same numbers.
pub open spec fn models_of<T: DeepView>(entries: Map<u64, T>) -> Map<u64, T::V> {
    Map::new(|k: u64| entries.contains_key(k), |k: u64| entries[k].deep_view())
}

impl<T: DeepView> DeepView for IdMap<T> {
    type V = Map<u64, T::V>;

    open spec fn deep_view(&self) -> Map<u64, T::V> {
        models_of(self@)
    }
}

impl<T> IdMap<T> {
    /// The collection without any value.
    pub fn new() -> (r: IdMap<T>)
        ensures
            r@ == Map::<u64, T>::empty(),
    {
        IdMap { entries: HashMap::new() }
    }

    /// Keeps `value` under `id`, in place of the value that was kept there, which is returned.
    pub fn insert(&mut self, id: u64, value: T) -> (r: Option<T>)
        ensures
            final(self)@ == old(self)@.insert(id, value),
            r == (if old(self)@.contains_key(id) {
                Some(old(self)@[id])
            } else {
                None
            }),
    {
        self.entries.insert(id, value)
    }

    /// The value kept under `id`, if there is one.
    pub fn get(&self, id: u64) -> (r: Option<&T>)
        ensures
            r == (if self@.contains_key(id) {
                Some(&self@[id])
            } else {
                None
            }),
    {
        self.entries.get(&id)
    }

    /// Whether a value is kept under `id`.
    pub fn contains(&self, id: u64) -> (r: bool)
        ensures
            r == self@.contains_key(id),
    {
        self.entries.contains_key(&id)
    }

    /// The number of values kept.
    pub fn len(&self) -> (r: usize)
        ensures
            r == self@.len(),
    {
        self.entries.len()
    }
}

/// The collection without any value: what an absent collection field stands for.
pub fn no_entries<T: DeepView>() -> (r: IdMap<T>)
    ensures
        r.deep_view() == Map::<u64, T::V>::empty(),
{
    let r: IdMap<T> = IdMap::new();
    assert(r.deep_view() =~= Map::<u64, T::V>::empty());
    r
}

/// The collection that keeps each of `items` under its own identifier. Where two of them
/// carry one identifier, the later one stays.
pub open spec fn keyed_by_id<T: Keyed>(items: Seq<T>) -> Map<u64, T>
    decreases items.len(),
{
    if items.len() == 0 {
        Map::empty()
    } else {
        keyed_by_id(items.drop_last()).insert(
            T::key_of(items.last().deep_view()),
            items.last(),
        )
    }
}

/// The collection that keeps each of `models` under its own identifier. Where two of them
/// carry one identifier, the later one stays.
pub open spec fn keyed_models<T: Keyed>(models: Seq<<T as DeepView>::V>) -> Map<
    u64,
    <T as DeepView>::V,
>
    decreases models.len(),
{
    if models.len() == 0 {
        Map::empty()
    } else {
        keyed_models::<T>(models.drop_last()).insert(T::key_of(models.last()), models.last())
    }
}

/// Keying records and then taking models gives what keying their models gives.
pub proof fn lemma_keyed_models<T: Keyed>(items: Seq<T>)
    ensures
        models_of(keyed_by_id(items)) == keyed_models::<T>(
            Seq::new(items.len(), |i: int| items[i].deep_view()),
        ),
    decreases items.len(),
{
    let models = Seq::new(items.len(), |i: int| items[i].deep_view());
    if items.len() == 0 {
        assert(models_of(keyed_by_id(items)) =~= Map::<u64, <T as DeepView>::V>::empty());
    } else {
        let init = items.drop_last();
        lemma_keyed_models(init);
        assert(models.drop_last() =~= Seq::new(init.len(), |i: int| init[i].deep_view()));
        assert(models.last() == items.last().deep_view());
        assert(models_of(keyed_by_id(items)) =~= keyed_models::<T>(models));
    }
}

/// No models at all give the empty collection.
pub proof fn lemma_keyed_models_empty<T: Keyed>()
    ensures
        keyed_models::<T>(Seq::<<T as DeepView>::V>::empty()) == Map::<
            u64,
            <T as DeepView>::V,
        >::empty(),
{
}

/// A model stays in the collection under its own identifier, unless a later model carries
/// the same identifier: of two records with one identifier, the later one stays.
pub proof fn lemma_keyed_models_last_stays<T: Keyed>(models: Seq<<T as DeepView>::V>, i: int)
    requires
        0 <= i < models.len(),
        forall|j: int|
            i < j < models.len() ==> T::key_of(#[trigger] models[j]) != T::key_of(models[i]),
    ensures
        keyed_models::<T>(models).contains_key(T::key_of(models[i])),
        keyed_models::<T>(models)[T::key_of(models[i])] == models[i],
    decreases models.len(),
{
    if i < models.len() - 1 {
        let init = models.drop_last();
        assert(init[i] == models[i]);
        assert forall|j: int| i < j < init.len() implies T::key_of(#[trigger] init[j])
            != T::key_of(init[i]) by {
            assert(init[j] == models[j]);
        }
        lemma_keyed_models_last_stays::<T>(init, i);
        assert(T::key_of(models[models.len() - 1]) != T::key_of(models[i]));
    }
}

/// The collection holds nothing under an identifier that no model carries.
pub proof fn lemma_keyed_models_only<T: Keyed>(models: Seq<<T as DeepView>::V>, id: u64)
    requires
        forall|i: int| 0 <= i < models.len() ==> T::key_of(#[trigger] models[i]) != id,
    ensures
        !keyed_models::<T>(models).contains_key(id),
    decreases models.len(),
{
    if models.len() > 0 {
        let init = models.drop_last();
        assert forall|i: int| 0 <= i < init.len() implies T::key_of(#[trigger] init[i]) != id by {
            assert(init[i] == models[i]);
        }
        lemma_keyed_models_only::<T>(init, id);
        assert(T::key_of(models[models.len() - 1]) != id);
    }
}

/// Decodes a sequence of records and keeps each under its own identifier. A value that is
/// no sequence is a `TypeMismatch` naming `Shape::Sequence`; the first record that
/// `record_decoder` rejects ends the decoding with that record's own error. Where an
/// identifier comes twice, the later record stays.
pub fn decode_id_keyed_map<T, F>(value: Value, record_decoder: F) -> (r: Result<
    IdMap<T>,
    Error,
>) where T: Keyed, F: Fn(Value) -> Result<T, Error>

    requires
        value matches Value::Sequence(items) ==> forall|i: int|
            0 <= i < items@.len() ==> record_decoder.requires((#[trigger] items@[i],)),
    ensures
        match value {
            Value::Sequence(items) => match r {
                Ok(map) => exists|out: Seq<T>|
                    out.len() == items@.len() && #[trigger] decoded_each(
                        record_decoder,
                        items@,
                        out,
                        items@.len() as int,
                    ) && map@ == keyed_by_id(out),
                Err(e) => exists|k: int|
                    0 <= k < items@.len() && accepted_each(record_decoder, items@, k)
                        && record_decoder.ensures((#[trigger] items@[k],), Err::<T, Error>(e)),
            },
            _ => r == Err::<IdMap<T>, Error>(Error::mismatch(Shape::Sequence)),
        },
{
    let ghost given = value;
    let records = decode_sequence(value, record_decoder)?;
    let ghost all = records@;
    let mut map: IdMap<T> = IdMap::new();
    for record in it: records
        invariant
            it.seq() == all,
            map@ == keyed_by_id(all.take(it.index() as int)),
    {
        let ghost k = it.index() as int;
        assert(all.take(k + 1).drop_last() =~= all.take(k));
        let id = record.key();
        map.insert(id, record);
    }
    assert(all.take(all.len() as int) =~= all);
    proof {
        let items = given->Sequence_0@;
        assert(decoded_each(record_decoder, items, all, items.len() as int));
    }
    Ok(map)
}

impl<T: Decode + Keyed> Decode for IdMap<T> {
    open spec fn decoded(value: Value) -> Result<Map<u64, <T as DeepView>::V>, Error> {
        match value {
            Value::Sequence(items) => match decoded_items::<T>(items@) {
                Ok(models) => Ok(keyed_models::<T>(models)),
                Err(e) => Err(e),
            },
            _ => Err(Error::mismatch(Shape::Sequence)),
        }
    }

    fn decode(value: Value) -> (r: Result<IdMap<T>, Error>) {
        let ghost given = value;
        let r = decode_id_keyed_map(value, T::decode);
        proof {
            if given is Sequence {
                let items = given->Sequence_0@;
                if r is Ok {
                    let map = r->Ok_0;
                    let out = choose|out: Seq<T>|
                        out.len() == items.len() && #[trigger] decoded_each(
                            T::decode,
                            items,
                            out,
                            items.len() as int,
                        ) && map@ == keyed_by_id(out);
                    let models = Seq::new(out.len(), |i: int| out[i].deep_view());
                    assert forall|i: int| 0 <= i < items.len() implies T::decoded(
                        #[trigger] items[i],
                    ) == Ok::<<T as DeepView>::V, Error>(models[i]) by {
                        assert(call_ensures(T::decode, (items[i],), Ok(out[i])));
                    }
                    lemma_decoded_items_ok::<T>(items, models);
                    lemma_keyed_models::<T>(out);
                } else {
                    let e = r->Err_0;
                    let k = choose|k: int|
                        0 <= k < items.len() && accepted_each(T::decode, items, k) && call_ensures(
                            T::decode,
                            (#[trigger] items[k],),
                            Err::<T, Error>(e),
                        );
                    assert forall|i: int| 0 <= i < k implies T::decoded(#[trigger] items[i])
                        is Ok by {
                        assert(accepts(T::decode, items[i]));
                    }
                    lemma_decoded_items_err::<T>(items, k, e);
                }
            }
        }
        r
    }
}

} // verus!
