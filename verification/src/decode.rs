//! Types with one wire form, and the fields of a record that hold them.

use crate::access::expect_bool;
use crate::access::expect_bool_spec;
use crate::access::expect_i64;
use crate::access::expect_i64_spec;
use crate::access::expect_string;
use crate::access::expect_string_spec;
use crate::access::expect_u64;
use crate::access::expect_u64_spec;
use crate::access::get_field;
use crate::combine::accepted_each;
use crate::combine::accepts;
use crate::combine::decode_optional;
use crate::combine::decode_sequence;
use crate::error::Error;
use crate::error::Shape;
use crate::value::Mapping;
use crate::value::Value;
use vstd::prelude::*;

verus! {

/// What a decoder returned, with the decoded value seen as its model.
pub open spec fn outcome<T: DeepView>(r: Result<T, Error>) -> Result<T::V, Error> {
    match r {
        Ok(t) => Ok(t.deep_view()),
        Err(e) => Err(e),
    }
}

/// Whether `r` is the failure with the error `e`.
pub open spec fn fails_with<M>(r: Result<M, Error>, e: Error) -> bool {
    r == Err::<M, Error>(e)
}

/// A type that is decoded from a dynamic value in one fixed way.
pub trait Decode: Sized + DeepView {
    /// What decoding `value` gives: the model of the decoded value, or the error.
    spec fn decoded(value: Value) -> Result<<Self as DeepView>::V, Error>;

    /// Decodes `value`, consuming it.
    fn decode(value: Value) -> (r: Result<Self, Error>)
        ensures
            outcome(r) == Self::decoded(value),
    ;
}

impl Decode for String {
    open spec fn decoded(value: Value) -> Result<Seq<char>, Error> {
        match expect_string_spec(value) {
            Ok(s) => Ok(s@),
            Err(e) => Err(e),
        }
    }

    fn decode(value: Value) -> (r: Result<String, Error>) {
        expect_string(value)
    }
}

impl Decode for bool {
    open spec fn decoded(value: Value) -> Result<bool, Error> {
        expect_bool_spec(value)
    }

    fn decode(value: Value) -> (r: Result<bool, Error>) {
        expect_bool(value)
    }
}

impl Decode for u64 {
    open spec fn decoded(value: Value) -> Result<u64, Error> {
        expect_u64_spec(value)
    }

    fn decode(value: Value) -> (r: Result<u64, Error>) {
        expect_u64(value)
    }
}

impl Decode for i64 {
    open spec fn decoded(value: Value) -> Result<i64, Error> {
        expect_i64_spec(value)
    }

    fn decode(value: Value) -> (r: Result<i64, Error>) {
        expect_i64(value)
    }
}

/// What decoding each of `items` in order gives: the models of the decoded values, or the
/// error of the first value that fails.
pub open spec fn decoded_items<T: Decode>(items: Seq<Value>) -> Result<
    Seq<<T as DeepView>::V>,
    Error,
>
    decreases items.len(),
{
    if items.len() == 0 {
        Ok(Seq::empty())
    } else {
        match decoded_items::<T>(items.drop_last()) {
            Err(e) => Err(e),
            Ok(init) => match T::decoded(items.last()) {
                Err(e) => Err(e),
                Ok(last) => Ok(init.push(last)),
            },
        }
    }
}

/// Where every value decodes, the sequence decodes to the models in the same order.
pub proof fn lemma_decoded_items_ok<T: Decode>(items: Seq<Value>, models: Seq<<T as DeepView>::V>)
    requires
        models.len() == items.len(),
        forall|i: int| 0 <= i < items.len() ==> T::decoded(#[trigger] items[i]) == Ok::<
            <T as DeepView>::V,
            Error,
        >(models[i]),
    ensures
        decoded_items::<T>(items) == Ok::<Seq<<T as DeepView>::V>, Error>(models),
    decreases items.len(),
{
    if items.len() == 0 {
        assert(models =~= Seq::empty());
    } else {
        lemma_decoded_items_ok::<T>(items.drop_last(), models.drop_last());
        assert(T::decoded(items.last()) == Ok::<<T as DeepView>::V, Error>(models.last()));
        assert(models.drop_last().push(models.last()) =~= models);
    }
}

/// Where the value at `k` is the first that fails, the sequence fails with its error.
pub proof fn lemma_decoded_items_err<T: Decode>(items: Seq<Value>, k: int, e: Error)
    requires
        0 <= k < items.len(),
        forall|i: int| 0 <= i < k ==> T::decoded(#[trigger] items[i]) is Ok,
        T::decoded(items[k]) == Err::<<T as DeepView>::V, Error>(e),
    ensures
        decoded_items::<T>(items) == Err::<Seq<<T as DeepView>::V>, Error>(e),
    decreases items.len(),
{
    let init = items.drop_last();
    if k == items.len() - 1 {
        let models = Seq::new(k as nat, |i: int| T::decoded(items[i])->Ok_0);
        assert forall|i: int| 0 <= i < init.len() implies T::decoded(#[trigger] init[i]) == Ok::<
            <T as DeepView>::V,
            Error,
        >(models[i]) by {
            assert(init[i] == items[i]);
        }
        lemma_decoded_items_ok::<T>(init, models);
    } else {
        assert forall|i: int| 0 <= i < k implies T::decoded(#[trigger] init[i]) is Ok by {
            assert(init[i] == items[i]);
        }
        assert(init[k] == items[k]);
        lemma_decoded_items_err::<T>(init, k, e);
    }
}

impl<T: Decode> Decode for Vec<T> {
    open spec fn decoded(value: Value) -> Result<Seq<<T as DeepView>::V>, Error> {
        match value {
            Value::Sequence(items) => decoded_items::<T>(items@),
            _ => Err(Error::mismatch(Shape::Sequence)),
        }
    }

    fn decode(value: Value) -> (r: Result<Vec<T>, Error>) {
        let ghost given = value;
        let r = decode_sequence(value, T::decode);
        proof {
            if given is Sequence {
                let items = given->Sequence_0@;
                if r is Ok {
                    let out = r->Ok_0;
                    let models = out.deep_view();
                    assert forall|i: int| 0 <= i < items.len() implies T::decoded(
                        #[trigger] items[i],
                    ) == Ok::<<T as DeepView>::V, Error>(models[i]) by {
                        assert(call_ensures(T::decode, (items[i],), Ok(out@[i])));
                    }
                    lemma_decoded_items_ok::<T>(items, models);
                } else {
                    let e = r->Err_0;
                    let k = choose|k: int|
                        0 <= k < items.len() && accepted_each(T::decode, items, k) && call_ensures(
                            T::decode,
                            (#[trigger] items[k],),
                            Err::<T, Error>(e),
                        );
                    assert forall|i: int| 0 <= i < k implies T::decoded(#[trigger] items[i])
                        is Ok by {
                        assert(accepts(T::decode, items[i]));
                    }
                    lemma_decoded_items_err::<T>(items, k, e);
                }
            }
        }
        r
    }
}

/// The first value of a sequence, in a field that holds the sequence.
#[derive(Clone, Debug, PartialEq, Eq)]
pub struct First<T>(pub T);

impl<T: DeepView> DeepView for First<T> {
    type V = T::V;

    open spec fn deep_view(&self) -> T::V {
        self.0.deep_view()
    }
}

impl<T: Decode> Decode for First<T> {
    /// The whole sequence is decoded, and the first of its values is kept. A sequence
    /// without any value is a mismatch naming `Shape::NonEmpty`.
    open spec fn decoded(value: Value) -> Result<<T as DeepView>::V, Error> {
        match <Vec<T>>::decoded(value) {
            Err(e) => Err(e),
            Ok(items) => if items.len() == 0 {
                Err(Error::mismatch(Shape::NonEmpty))
            } else {
                Ok(items[0])
            },
        }
    }

    fn decode(value: Value) -> (r: Result<First<T>, Error>) {
        let mut items = <Vec<T>>::decode(value)?;
        if items.len() == 0 {
            return Err(Error::TypeMismatch(Shape::NonEmpty, None));
        }
        let first = items.swap_remove(0);
        Ok(First(first))
    }
}

/// A record in a field that holds the empty mapping where there is no record.
#[derive(Clone, Debug, PartialEq, Eq)]
pub struct Filled<T>(pub Option<T>);

impl<T: DeepView> DeepView for Filled<T> {
    type V = Option<T::V>;

    open spec fn deep_view(&self) -> Option<T::V> {
        self.0.deep_view()
    }
}

impl<T: Decode> Decode for Filled<T> {
    /// The empty mapping gives no record, and that is no error. Any other value is decoded
    /// as the record.
    open spec fn decoded(value: Value) -> Result<Option<<T as DeepView>::V>, Error> {
        if value matches Value::Mapping(source) && source@ == Map::<Seq<char>, Value>::empty() {
            Ok(None)
        } else {
            match T::decoded(value) {
                Ok(record) => Ok(Some(record)),
                Err(e) => Err(e),
            }
        }
    }

    fn decode(value: Value) -> (r: Result<Filled<T>, Error>) {
        let empty = match &value {
            Value::Mapping(source) => source.is_empty(),
            _ => false,
        };
        if empty {
            Ok(Filled(None))
        } else {
            match T::decode(value) {
                Ok(record) => Ok(Filled(Some(record))),
                Err(e) => Err(e),
            }
        }
    }
}

/// The sequence without any item: what an absent sequence field stands for.
pub fn no_items<T: DeepView>() -> (r: Vec<T>)
    ensures
        r.deep_view() == Seq::<T::V>::empty(),
{
    let r: Vec<T> = Vec::new();
    assert(r.deep_view() =~= Seq::<T::V>::empty());
    r
}

/// What the required field `key` of a record gives, for a mapping with the contents `fields`:
/// a `MissingField` where the key is absent; else what decoding its value gives, an error
/// being placed at the field.
pub open spec fn required_field<T: Decode>(
    fields: Map<Seq<char>, Value>,
    key: &'static str,
) -> Result<<T as DeepView>::V, Error> {
    if fields.contains_key(key@) {
        match T::decoded(fields[key@]) {
            Ok(t) => Ok(t),
            Err(e) => Err(e.at_spec(key)),
        }
    } else {
        Err(Error::MissingField(key))
    }
}

/// What the optional field `key` of a record gives, for a mapping with the contents `fields`:
/// `None` where the key is absent; else what decoding its value gives, an error being
/// placed at the field.
pub open spec fn optional_field<T: Decode>(
    fields: Map<Seq<char>, Value>,
    key: &'static str,
) -> Result<Option<<T as DeepView>::V>, Error> {
    if fields.contains_key(key@) {
        match T::decoded(fields[key@]) {
            Ok(t) => Ok(Some(t)),
            Err(e) => Err(e.at_spec(key)),
        }
    } else {
        Ok(None)
    }
}

/// Takes the required field `key` out of `fields` and decodes it.
pub fn required<T: Decode>(fields: &mut Mapping, key: &'static str) -> (r: Result<T, Error>)
    ensures
        outcome(r) == required_field::<T>(old(fields)@, key),
        final(fields)@ == old(fields)@.remove(key@),
{
    let value = get_field(fields, key)?;
    match T::decode(value) {
        Ok(t) => Ok(t),
        Err(e) => Err(e.at(key)),
    }
}

/// Takes the optional field `key` out of `fields` and decodes it where it is present.
pub fn optional<T: Decode>(fields: &mut Mapping, key: &'static str) -> (r: Result<Option<T>, Error>)
    ensures
        outcome(r) == optional_field::<T>(old(fields)@, key),
        final(fields)@ == old(fields)@.remove(key@),
{
    match decode_optional(fields, key, T::decode) {
        Ok(t) => Ok(t),
        Err(e) => Err(e.at(key)),
    }
}

/// A required field that is absent fails the record for want of exactly that field.
pub proof fn lemma_required_absent<T: Decode>(fields: Map<Seq<char>, Value>, key: &'static str)
    requires
        !fields.contains_key(key@),
    ensures
        required_field::<T>(fields, key) == Err::<<T as DeepView>::V, Error>(
            Error::MissingField(key),
        ),
{
}

/// An optional field that is absent is decoded as absent, and that is no error.
pub proof fn lemma_optional_absent<T: Decode>(fields: Map<Seq<char>, Value>, key: &'static str)
    requires
        !fields.contains_key(key@),
    ensures
        optional_field::<T>(fields, key) == Ok::<Option<<T as DeepView>::V>, Error>(None),
{
}

/// An optional field that is present is never taken for an absent one: it is decoded, or
/// it fails. Where its value has the wrong shape, the failure is that mismatch, with the
/// name of the field.
pub proof fn lemma_optional_present<T: Decode>(
    fields: Map<Seq<char>, Value>,
    key: &'static str,
    expected: Shape,
)
    requires
        fields.contains_key(key@),
    ensures
        optional_field::<T>(fields, key) != Ok::<Option<<T as DeepView>::V>, Error>(None),
        T::decoded(fields[key@]) is Ok ==> optional_field::<T>(fields, key) == Ok::<
            Option<<T as DeepView>::V>,
            Error,
        >(Some(T::decoded(fields[key@])->Ok_0)),
        T::decoded(fields[key@]) == Err::<<T as DeepView>::V, Error>(Error::mismatch(expected))
            ==> optional_field::<T>(fields, key) == Err::<Option<<T as DeepView>::V>, Error>(
            Error::TypeMismatch(expected, Some(key)),
        ),
{
}

/// The empty sequence is decoded as the empty sequence, and that is no error.
pub proof fn lemma_decoded_items_empty<T: Decode>()
    ensures
        decoded_items::<T>(Seq::<Value>::empty()) == Ok::<Seq<<T as DeepView>::V>, Error>(
            Seq::empty(),
        ),
{
}

/// A sequence of a value that decodes and one that does not fails with the error of the
/// second, unchanged.
pub proof fn lemma_decoded_items_second_fails<T: Decode>(good: Value, bad: Value)
    requires
        T::decoded(good) is Ok,
        T::decoded(bad) is Err,
    ensures
        decoded_items::<T>(seq![good, bad]) == Err::<Seq<<T as DeepView>::V>, Error>(
            T::decoded(bad)->Err_0,
        ),
{
    let items = seq![good, bad];
    assert(items[0] == good);
    assert(items[1] == bad);
    lemma_decoded_items_err::<T>(items, 1, T::decoded(bad)->Err_0);
}

/// Reads the optional boolean field `key` of `source` and leaves the field in place.
pub fn peek_bool(source: &Mapping, key: &'static str) -> (r: Result<Option<bool>, Error>)
    ensures
        r == optional_field::<bool>(source@, key),
{
    match source.get(key) {
        None => Ok(None),
        Some(value) => match value {
            Value::Bool(b) => Ok(Some(*b)),
            _ => Err(Error::TypeMismatch(Shape::Boolean, Some(key))),
        },
    }
}

} // verus!
