//! The closed set of failures that decoding can report.

use vstd::prelude::*;

verus! {

/// The shape that a decoder expected a value to have.
#[derive(Clone, Copy, Debug, PartialEq, Eq, Structural)]
pub enum Shape {
    /// A boolean.
    Boolean,
    /// An integer that fits in 32 unsigned bits.
    Unsigned32,
    /// An integer that fits in 64 unsigned bits.
    Unsigned64,
    /// An integer that fits in 64 signed bits.
    Signed64,
    /// A string.
    Text,
    /// An ordered sequence of values.
    Sequence,
    /// An ordered sequence of at least one value.
    NonEmpty,
    /// An ordered sequence of at least two values.
    Pair,
    /// A mapping from string keys to values.
    Mapping,
    /// An identifier: an unsigned 64-bit integer, or a string that is its decimal numeral.
    Identifier,
    /// A discriminator: an unsigned 16-bit integer, or a string that is its decimal numeral.
    Discriminator,
}

/// The value that an enum codec could not place in its fixed set of members.
#[derive(Debug, PartialEq, Eq)]
pub enum Raw {
    /// A name that no member carries.
    Name(String),
    /// An ordinal that no member carries.
    Ordinal(u64),
}

/// Why a value could not be decoded.
#[derive(Debug, PartialEq, Eq)]
pub enum Error {
    /// A required field is absent from a mapping.
    MissingField(&'static str),
    /// A value is present but has not the expected shape. The second part names the field
    /// that held the value, where the failure came from a field of a record.
    TypeMismatch(Shape, Option<&'static str>),
    /// A name or an ordinal is outside the fixed member set of the named enum.
    InvalidEnumValue(&'static str, Raw),
    /// The value of the named field was present and of the right shape, but decoding it
    /// failed inside with the given error.
    NestedDecodeFailure(&'static str, Box<Error>),
}

impl Shape {
    /// The word for this shape in diagnostics.
    pub fn name(&self) -> (r: &'static str)
        ensures
            r == self.name_spec(),
    {
        match self {
            Shape::Boolean => "bool",
            Shape::Unsigned32 => "u32",
            Shape::Unsigned64 => "u64",
            Shape::Signed64 => "i64",
            Shape::Text => "string",
            Shape::Sequence => "sequence",
            Shape::NonEmpty => "non-empty sequence",
            Shape::Pair => "pair",
            Shape::Mapping => "map",
            Shape::Identifier => "identifier",
            Shape::Discriminator => "discriminator",
        }
    }

    /// The word for this shape in diagnostics.
    pub open spec fn name_spec(&self) -> &'static str {
        match self {
            Shape::Boolean => "bool",
            Shape::Unsigned32 => "u32",
            Shape::Unsigned64 => "u64",
            Shape::Signed64 => "i64",
            Shape::Text => "string",
            Shape::Sequence => "sequence",
            Shape::NonEmpty => "non-empty sequence",
            Shape::Pair => "pair",
            Shape::Mapping => "map",
            Shape::Identifier => "identifier",
            Shape::Discriminator => "discriminator",
        }
    }
}

impl Error {
    /// A shape mismatch that names no field yet.
    pub open spec fn mismatch(expected: Shape) -> Error {
        Error::TypeMismatch(expected, None)
    }

    /// This error as the failure of the field `key` of a record: a shape mismatch that names
    /// no field yet is given the field's name; any other error is nested under it.
    pub open spec fn at_spec(self, key: &'static str) -> Error {
        match self {
            Error::TypeMismatch(expected, None) => Error::TypeMismatch(expected, Some(key)),
            _ => Error::NestedDecodeFailure(key, Box::new(self)),
        }
    }

    /// This error as the failure of the field `key` of a record.
    pub fn at(self, key: &'static str) -> (r: Error)
        ensures
            r == self.at_spec(key),
    {
        match self {
            Error::TypeMismatch(expected, None) => Error::TypeMismatch(expected, Some(key)),
            other => Error::NestedDecodeFailure(key, Box::new(other)),
        }
    }
}

} // verus!
