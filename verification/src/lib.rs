//! Decoding of dynamic, JSON-like values into the typed records of the Discord model.
//!
//! A [`value::Value`] is what a parsed payload holds: null, a boolean, an integer, a float, a
//! string, a sequence or a mapping. Every decoder consumes one such value and gives one typed
//! value or one [`error::Error`]; no decoder panics, reads anything but its argument, or keeps
//! anything of it. Decoding fails at the first fault and says where: which field is missing,
//! which shape was expected, which name or number an enumeration does not know.
//!
//! The layers, from the leaves up:
//!
//! - [`access`]: a field out of a mapping, a value as one primitive shape;
//! - [`combine`]: optional fields and sequences, over any decoder;
//! - [`codec`] and [`kinds`]: the closed enumerations, by name and by ordinal;
//! - [`ident`] and [`scalar`]: identifiers and other small numbers;
//! - [`decode`] and [`keyed`]: the types with one wire form, the fields of a record that hold
//!   them, and collections kept under the identifier of each record;
//! - [`records`]: the records themselves.
//!
//! Each decoder is stated against a model: a record is decoded to the value that the spec
//! function beside it gives for the contents of the mapping, and the laws of each record
//! (a mapping with just the required fields is decoded; a missing required field is named;
//! an optional field of the wrong shape is an error, not an absence) are proved from it.

pub mod access;
pub mod codec;
pub mod combine;
pub mod decode;
pub mod error;
pub mod ident;
pub mod keyed;
pub mod kinds;
pub mod records;
pub mod scalar;
pub mod text;
pub mod value;
