//! Small numbers with a meaning of their own: colours, permission bits, discriminators.

use crate::decode::Decode;
use crate::error::Error;
use crate::error::Shape;
use crate::text::parse_u64;
use crate::text::parse_u64_spec;
use crate::value::Value;
use vstd::prelude::*;

verus! {

/// A colour, as the number `0xRRGGBB`.
#[derive(Clone, Copy, Debug, PartialEq, Eq, Structural, Hash)]
pub struct Colour(pub u32);

/// A set of permissions, one bit for each.
#[derive(Clone, Copy, Debug, PartialEq, Eq, Structural, Hash)]
pub struct Permissions(pub u64);

/// The four-digit number that tells apart users of one name.
#[derive(Clone, Copy, Debug, PartialEq, Eq, Structural, Hash)]
pub struct Discriminator(pub u16);

impl DeepView for Colour {
    type V = Colour;

    open spec fn deep_view(&self) -> Colour {
        *self
    }
}

impl DeepView for Permissions {
    type V = Permissions;

    open spec fn deep_view(&self) -> Permissions {
        *self
    }
}

impl DeepView for Discriminator {
    type V = Discriminator;

    open spec fn deep_view(&self) -> Discriminator {
        *self
    }
}

impl Decode for Colour {
    /// A colour is an integer that fits in 32 unsigned bits.
    open spec fn decoded(value: Value) -> Result<Colour, Error> {
        match value {
            Value::Integer(n) if 0 <= n <= u32::MAX => Ok(Colour(n as u32)),
            _ => Err(Error::mismatch(Shape::Unsigned32)),
        }
    }

    fn decode(value: Value) -> (r: Result<Colour, Error>) {
        match value {
            Value::Integer(n) => {
                if 0 <= n && n <= 0xffff_ffff {
                    Ok(Colour(n as u32))
                } else {
                    Err(Error::TypeMismatch(Shape::Unsigned32, None))
                }
            },
            _ => Err(Error::TypeMismatch(Shape::Unsigned32, None)),
        }
    }
}

impl Decode for Permissions {
    /// A set of permissions is an integer that fits in 64 unsigned bits.
    open spec fn decoded(value: Value) -> Result<Permissions, Error> {
        match value {
            Value::Integer(n) if 0 <= n <= u64::MAX => Ok(Permissions(n as u64)),
            _ => Err(Error::mismatch(Shape::Unsigned64)),
        }
    }

    fn decode(value: Value) -> (r: Result<Permissions, Error>) {
        match value {
            Value::Integer(n) => {
                if 0 <= n && n <= 0xffff_ffff_ffff_ffff {
                    Ok(Permissions(n as u64))
                } else {
                    Err(Error::TypeMismatch(Shape::Unsigned64, None))
                }
            },
            _ => Err(Error::TypeMismatch(Shape::Unsigned64, None)),
        }
    }
}

impl Decode for Discriminator {
    /// A discriminator is an integer that fits in 16 unsigned bits, or a string that is the
    /// decimal numeral of one.
    open spec fn decoded(value: Value) -> Result<Discriminator, Error> {
        match value {
            Value::Integer(n) if 0 <= n <= u16::MAX => Ok(Discriminator(n as u16)),
            Value::Text(s) => match parse_u64_spec(s@) {
                Some(n) if n <= u16::MAX => Ok(Discriminator(n as u16)),
                _ => Err(Error::mismatch(Shape::Discriminator)),
            },
            _ => Err(Error::mismatch(Shape::Discriminator)),
        }
    }

    fn decode(value: Value) -> (r: Result<Discriminator, Error>) {
        match value {
            Value::Integer(n) => {
                if 0 <= n && n <= 0xffff {
                    Ok(Discriminator(n as u16))
                } else {
                    Err(Error::TypeMismatch(Shape::Discriminator, None))
                }
            },
            Value::Text(s) => match parse_u64(s.as_str()) {
                Some(n) => {
                    if n <= 0xffff {
                        Ok(Discriminator(n as u16))
                    } else {
                        Err(Error::TypeMismatch(Shape::Discriminator, None))
                    }
                },
                None => Err(Error::TypeMismatch(Shape::Discriminator, None)),
            },
            _ => Err(Error::TypeMismatch(Shape::Discriminator, None)),
        }
    }
}

} // verus!
