//! Accessors: taking a field out of a mapping, and reading a value as one primitive shape.

use crate::error::Error;
use crate::error::Shape;
use crate::value::Mapping;
use crate::value::Value;
use vstd::prelude::*;

verus! {

/// What `get_field` returns for a mapping with the contents `fields`.
pub open spec fn get_field_spec(fields: Map<Seq<char>, Value>, key: &'static str) -> Result<
    Value,
    Error,
> {
    if fields.contains_key(key@) {
        Ok(fields[key@])
    } else {
        Err(Error::MissingField(key))
    }
}

/// Takes the value under `key` out of `container`. The key is gone afterwards, so each field
/// is consumed at most once. An absent key is a `MissingField` error.
pub fn get_field(container: &mut Mapping, key: &'static str) -> (r: Result<Value, Error>)
    ensures
        r == get_field_spec(old(container)@, key),
        final(container)@ == old(container)@.remove(key@),
{
    match container.remove(key) {
        Some(value) => Ok(value),
        None => Err(Error::MissingField(key)),
    }
}

/// What `expect_string` returns.
pub open spec fn expect_string_spec(value: Value) -> Result<String, Error> {
    match value {
        Value::Text(s) => Ok(s),
        _ => Err(Error::mismatch(Shape::Text)),
    }
}

/// The string that `value` is; a `TypeMismatch` naming `Shape::Text` for any other variant.
pub fn expect_string(value: Value) -> (r: Result<String, Error>)
    ensures
        r == expect_string_spec(value),
{
    match value {
        Value::Text(s) => Ok(s),
        _ => Err(Error::TypeMismatch(Shape::Text, None)),
    }
}

/// What `expect_bool` returns.
pub open spec fn expect_bool_spec(value: Value) -> Result<bool, Error> {
    match value {
        Value::Bool(b) => Ok(b),
        _ => Err(Error::mismatch(Shape::Boolean)),
    }
}

/// The boolean that `value` is; a `TypeMismatch` naming `Shape::Boolean` for any other
/// variant.
pub fn expect_bool(value: Value) -> (r: Result<bool, Error>)
    ensures
        r == expect_bool_spec(value),
{
    match value {
        Value::Bool(b) => Ok(b),
        _ => Err(Error::TypeMismatch(Shape::Boolean, None)),
    }
}

/// The integer that `value` is, where it is an integer between `low` and `high`; else a
/// mismatch naming `expected`.
pub open spec fn expect_integer_spec(value: Value, low: int, high: int, expected: Shape) -> Result<
    int,
    Error,
> {
    match value {
        Value::Integer(n) if low <= n <= high => Ok(n as int),
        _ => Err(Error::mismatch(expected)),
    }
}

/// What `expect_u64` returns.
pub open spec fn expect_u64_spec(value: Value) -> Result<u64, Error> {
    match expect_integer_spec(value, 0, u64::MAX as int, Shape::Unsigned64) {
        Ok(n) => Ok(n as u64),
        Err(e) => Err(e),
    }
}

/// The unsigned 64-bit number that `value` is: an integer from 0 to `u64::MAX`. Any other
/// value is a `TypeMismatch` naming `Shape::Unsigned64`.
pub fn expect_u64(value: Value) -> (r: Result<u64, Error>)
    ensures
        r == expect_u64_spec(value),
{
    match value {
        Value::Integer(n) => {
            if 0 <= n && n <= 0xffff_ffff_ffff_ffff {
                Ok(n as u64)
            } else {
                Err(Error::TypeMismatch(Shape::Unsigned64, None))
            }
        },
        _ => Err(Error::TypeMismatch(Shape::Unsigned64, None)),
    }
}

/// What `expect_i64` returns.
pub open spec fn expect_i64_spec(value: Value) -> Result<i64, Error> {
    match expect_integer_spec(value, i64::MIN as int, i64::MAX as int, Shape::Signed64) {
        Ok(n) => Ok(n as i64),
        Err(e) => Err(e),
    }
}

/// The signed 64-bit number that `value` is: an integer from `i64::MIN` to `i64::MAX`. Any
/// other value is a `TypeMismatch` naming `Shape::Signed64`.
pub fn expect_i64(value: Value) -> (r: Result<i64, Error>)
    ensures
        r == expect_i64_spec(value),
{
    match value {
        Value::Integer(n) => {
            if -0x8000_0000_0000_0000 <= n && n <= 0x7fff_ffff_ffff_ffff {
                Ok(n as i64)
            } else {
                Err(Error::TypeMismatch(Shape::Signed64, None))
            }
        },
        _ => Err(Error::TypeMismatch(Shape::Signed64, None)),
    }
}

/// What `expect_map` returns.
pub open spec fn expect_map_spec(value: Value) -> Result<Mapping, Error> {
    match value {
        Value::Mapping(m) => Ok(m),
        _ => Err(Error::mismatch(Shape::Mapping)),
    }
}

/// The mapping that `value` is; a `TypeMismatch` naming `Shape::Mapping` for any other
/// variant. Every record decoder starts here.
pub fn expect_map(value: Value) -> (r: Result<Mapping, Error>)
    ensures
        r == expect_map_spec(value),
{
    match value {
        Value::Mapping(m) => Ok(m),
        _ => Err(Error::TypeMismatch(Shape::Mapping, None)),
    }
}

/// What `expect_sequence` returns.
pub open spec fn expect_sequence_spec(value: Value) -> Result<Vec<Value>, Error> {
    match value {
        Value::Sequence(items) => Ok(items),
        _ => Err(Error::mismatch(Shape::Sequence)),
    }
}

/// The sequence that `value` is; a `TypeMismatch` naming `Shape::Sequence` for any other
/// variant.
pub fn expect_sequence(value: Value) -> (r: Result<Vec<Value>, Error>)
    ensures
        r == expect_sequence_spec(value),
{
    match value {
        Value::Sequence(items) => Ok(items),
        _ => Err(Error::TypeMismatch(Shape::Sequence, None)),
    }
}

} // verus!
