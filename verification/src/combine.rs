//! Combinators over decoders: optional fields and sequences.

use crate::access::expect_sequence;
use crate::error::Error;
use crate::error::Shape;
use crate::value::Mapping;
use crate::value::Value;
use vstd::prelude::*;

verus! {

/// Decodes the field `key` of `container` where it is present. An absent key gives `None`
/// and no error; a present key is handed to `inner_decoder`, whose failure is returned as it
/// is: a present value of the wrong shape is never taken for an absent one. The key is gone
/// from `container` afterwards.
pub fn decode_optional<T, F>(container: &mut Mapping, key: &'static str, inner_decoder: F) -> (r:
    Result<Option<T>, Error>) where F: FnOnce(Value) -> Result<T, Error>
    requires
        old(container)@.contains_key(key@) ==> inner_decoder.requires((old(container)@[key@],)),
    ensures
        final(container)@ == old(container)@.remove(key@),
        !old(container)@.contains_key(key@) ==> r == Ok::<Option<T>, Error>(None),
        old(container)@.contains_key(key@) ==> match r {
            Ok(Some(t)) => inner_decoder.ensures((old(container)@[key@],), Ok(t)),
            Ok(None) => false,
            Err(e) => inner_decoder.ensures((old(container)@[key@],), Err(e)),
        },
{
    match container.remove(key) {
        None => Ok(None),
        Some(value) => match inner_decoder(value) {
            Ok(t) => Ok(Some(t)),
            Err(e) => Err(e),
        },
    }
}

/// Whether `decoder` may have turned each of the first `n` values of `items` into the value
/// at the same place of `out`.
pub open spec fn decoded_each<T, F: Fn(Value) -> Result<T, Error>>(
    decoder: F,
    items: Seq<Value>,
    out: Seq<T>,
    n: int,
) -> bool {
    forall|i: int| 0 <= i < n ==> decoder.ensures((#[trigger] items[i],), Ok(out[i]))
}

/// Whether `decoder` may accept `value`.
pub open spec fn accepts<T, F: Fn(Value) -> Result<T, Error>>(decoder: F, value: Value) -> bool {
    exists|t: T| decoder.ensures((value,), Ok::<T, Error>(t))
}

/// Whether `decoder` may have accepted each of the first `n` values of `items`.
pub open spec fn accepted_each<T, F: Fn(Value) -> Result<T, Error>>(
    decoder: F,
    items: Seq<Value>,
    n: int,
) -> bool {
    forall|i: int| 0 <= i < n ==> accepts(decoder, #[trigger] items[i])
}

/// Decodes a sequence, element by element and in order. A value that is no sequence is a
/// `TypeMismatch` naming `Shape::Sequence`. The first element that `element_decoder` rejects
/// ends the decoding, with that element's own error and nothing added to it.
pub fn decode_sequence<T, F>(value: Value, element_decoder: F) -> (r: Result<Vec<T>, Error>) where
    F: Fn(Value) -> Result<T, Error>,

    requires
        value matches Value::Sequence(items) ==> forall|i: int|
            0 <= i < items@.len() ==> element_decoder.requires((#[trigger] items@[i],)),
    ensures
        match value {
            Value::Sequence(items) => match r {
                Ok(out) => out@.len() == items@.len() && decoded_each(
                    element_decoder,
                    items@,
                    out@,
                    items@.len() as int,
                ),
                Err(e) => exists|k: int|
                    0 <= k < items@.len() && accepted_each(element_decoder, items@, k)
                        && element_decoder.ensures((#[trigger] items@[k],), Err::<T, Error>(e)),
            },
            _ => r == Err::<Vec<T>, Error>(Error::mismatch(Shape::Sequence)),
        },
{
    let items = expect_sequence(value)?;
    let ghost all = items@;
    let mut out: Vec<T> = Vec::new();
    for item in it: items
        invariant
            it.seq() == all,
            value matches Value::Sequence(given) && given@ == all,
            forall|i: int| 0 <= i < all.len() ==> element_decoder.requires((#[trigger] all[i],)),
            out@.len() == it.index(),
            decoded_each(element_decoder, all, out@, it.index() as int),
    {
        let ghost k = it.index() as int;
        match element_decoder(item) {
            Ok(t) => {
                out.push(t);
            },
            Err(e) => {
                proof {
                    assert forall|i: int| 0 <= i < k implies accepts(
                        element_decoder,
                        #[trigger] all[i],
                    ) by {
                        assert(element_decoder.ensures((all[i],), Ok(out@[i])));
                    }
                    assert(element_decoder.ensures((all[k],), Err::<T, Error>(e)));
                }
                return Err(e);
            },
        }
    }
    Ok(out)
}

} // verus!
