//! Enum codecs: the name-based and the ordinal-based wire form of a closed enumeration.

use crate::access::expect_string;
use crate::access::expect_u64;
use crate::decode::required_field;
use crate::decode::Decode;
use crate::error::Error;
use crate::error::Raw;
use crate::error::Shape;
use crate::value::Mapping;
use crate::value::Value;
use vstd::prelude::*;

verus! {

/// A closed enumeration whose members each carry one canonical name.
pub trait NamedEnum: Sized {
    /// The name of the enumeration, as errors report it.
    spec fn kind_spec() -> &'static str;

    /// The canonical name of this member.
    spec fn name_spec(self) -> Seq<char>;

    /// The member whose canonical name is `name`, if there is one.
    spec fn from_name_spec(name: Seq<char>) -> Option<Self>;

    /// The name of the enumeration, as errors report it.
    fn kind() -> (r: &'static str)
        ensures
            r == Self::kind_spec(),
    ;

    /// The canonical name of this member.
    fn name_of(&self) -> (r: &'static str)
        ensures
            r@ == self.name_spec(),
    ;

    /// The member whose canonical name is `name`; `None` for any other string.
    fn variant_from_name(name: &str) -> (r: Option<Self>)
        ensures
            r == Self::from_name_spec(name@),
    ;

    /// Every member is found again by its name.
    proof fn lemma_name_round_trip(member: Self)
        ensures
            Self::from_name_spec(member.name_spec()) == Some(member),
    ;

    /// A member is found by no string but its own name.
    proof fn lemma_name_exact(name: Seq<char>)
        ensures
            Self::from_name_spec(name) matches Some(member) ==> member.name_spec() == name,
    ;
}

/// A closed enumeration whose members each carry one ordinal.
pub trait OrdinalEnum: Sized {
    /// The name of the enumeration, as errors report it.
    spec fn kind_spec() -> &'static str;

    /// The ordinal of this member.
    spec fn ordinal_spec(self) -> u64;

    /// The member whose ordinal is `ordinal`, if there is one.
    spec fn from_ordinal_spec(ordinal: u64) -> Option<Self>;

    /// The name of the enumeration, as errors report it.
    fn kind() -> (r: &'static str)
        ensures
            r == Self::kind_spec(),
    ;

    /// The ordinal of this member.
    fn ordinal_of(&self) -> (r: u64)
        ensures
            r == self.ordinal_spec(),
    ;

    /// The member whose ordinal is `ordinal`; `None` for any other number.
    fn variant_from_ordinal(ordinal: u64) -> (r: Option<Self>)
        ensures
            r == Self::from_ordinal_spec(ordinal),
    ;

    /// Every member is found again by its ordinal.
    proof fn lemma_ordinal_round_trip(member: Self)
        ensures
            Self::from_ordinal_spec(member.ordinal_spec()) == Some(member),
    ;

    /// A member is found by no number but its own ordinal.
    proof fn lemma_ordinal_exact(ordinal: u64)
        ensures
            Self::from_ordinal_spec(ordinal) matches Some(member) ==> member.ordinal_spec()
                == ordinal,
    ;
}

/// What `decode_by_name` returns: the member named by a string; an `InvalidEnumValue` with
/// the string for a string that names no member; a mismatch for a value that is no string.
pub open spec fn decoded_by_name<E: NamedEnum>(value: Value) -> Result<E, Error> {
    match value {
        Value::Text(s) => match E::from_name_spec(s@) {
            Some(member) => Ok(member),
            None => Err(Error::InvalidEnumValue(E::kind_spec(), Raw::Name(s))),
        },
        _ => Err(Error::mismatch(Shape::Text)),
    }
}

/// Decodes a member of `E` from its canonical name.
pub fn decode_by_name<E: NamedEnum>(value: Value) -> (r: Result<E, Error>)
    ensures
        r == decoded_by_name::<E>(value),
{
    let name = expect_string(value)?;
    match E::variant_from_name(name.as_str()) {
        Some(member) => Ok(member),
        None => Err(Error::InvalidEnumValue(E::kind(), Raw::Name(name))),
    }
}

/// What `decode_by_ordinal` returns: the member with the ordinal that an integer gives; an
/// `InvalidEnumValue` with the number for a number that no member carries; a mismatch for a
/// value that is no unsigned 64-bit integer.
pub open spec fn decoded_by_ordinal<E: OrdinalEnum>(value: Value) -> Result<E, Error> {
    match value {
        Value::Integer(n) if 0 <= n <= u64::MAX => match E::from_ordinal_spec(n as u64) {
            Some(member) => Ok(member),
            None => Err(Error::InvalidEnumValue(E::kind_spec(), Raw::Ordinal(n as u64))),
        },
        _ => Err(Error::mismatch(Shape::Unsigned64)),
    }
}

/// Decodes a member of `E` from its ordinal.
pub fn decode_by_ordinal<E: OrdinalEnum>(value: Value) -> (r: Result<E, Error>)
    ensures
        r == decoded_by_ordinal::<E>(value),
{
    let ordinal = expect_u64(value)?;
    match E::variant_from_ordinal(ordinal) {
        Some(member) => Ok(member),
        None => Err(Error::InvalidEnumValue(E::kind(), Raw::Ordinal(ordinal))),
    }
}

/// A string that is the name of no member is rejected as an invalid enum value that carries
/// the string: no member is put in its place.
pub proof fn lemma_unknown_name_rejected<E: NamedEnum>(name: String)
    requires
        forall|member: E| member.name_spec() != name@,
    ensures
        decoded_by_name::<E>(Value::Text(name)) == Err::<E, Error>(
            Error::InvalidEnumValue(E::kind_spec(), Raw::Name(name)),
        ),
{
    E::lemma_name_exact(name@);
}

/// A number that is the ordinal of no member is rejected as an invalid enum value that
/// carries the number: no member is put in its place.
pub proof fn lemma_unknown_ordinal_rejected<E: OrdinalEnum>(ordinal: u64)
    requires
        forall|member: E| member.ordinal_spec() != ordinal,
    ensures
        decoded_by_ordinal::<E>(Value::Integer(ordinal as i128)) == Err::<E, Error>(
            Error::InvalidEnumValue(E::kind_spec(), Raw::Ordinal(ordinal)),
        ),
{
    E::lemma_ordinal_exact(ordinal);
}

/// A member of `E` in a field that holds its canonical name.
#[derive(Clone, Copy, Debug, PartialEq, Eq)]
pub struct Named<E>(pub E);

/// A member of `E` in a field that holds its ordinal.
#[derive(Clone, Copy, Debug, PartialEq, Eq)]
pub struct Numbered<E>(pub E);

impl<E: NamedEnum> DeepView for Named<E> {
    type V = E;

    open spec fn deep_view(&self) -> E {
        self.0
    }
}

impl<E: OrdinalEnum> DeepView for Numbered<E> {
    type V = E;

    open spec fn deep_view(&self) -> E {
        self.0
    }
}

impl<E: NamedEnum> Decode for Named<E> {
    open spec fn decoded(value: Value) -> Result<E, Error> {
        decoded_by_name::<E>(value)
    }

    fn decode(value: Value) -> (r: Result<Named<E>, Error>) {
        match decode_by_name::<E>(value) {
            Ok(member) => Ok(Named(member)),
            Err(e) => Err(e),
        }
    }
}

impl<E: OrdinalEnum> Decode for Numbered<E> {
    open spec fn decoded(value: Value) -> Result<E, Error> {
        decoded_by_ordinal::<E>(value)
    }

    fn decode(value: Value) -> (r: Result<Numbered<E>, Error>) {
        match decode_by_ordinal::<E>(value) {
            Ok(member) => Ok(Numbered(member)),
            Err(e) => Err(e),
        }
    }
}

/// Reads the required field `key` of `source`, which holds the ordinal of a member of `E`,
/// and leaves the field in place.
pub fn peek_ordinal<E: OrdinalEnum>(source: &Mapping, key: &'static str) -> (r: Result<E, Error>)
    ensures
        r == required_field::<Numbered<E>>(source@, key),
{
    match source.get(key) {
        None => Err(Error::MissingField(key)),
        Some(value) => match value {
            Value::Integer(n) => {
                if 0 <= *n && *n <= 0xffff_ffff_ffff_ffff {
                    let ordinal = *n as u64;
                    match E::variant_from_ordinal(ordinal) {
                        Some(member) => Ok(member),
                        None => Err(
                            Error::InvalidEnumValue(E::kind(), Raw::Ordinal(ordinal)).at(key),
                        ),
                    }
                } else {
                    Err(Error::TypeMismatch(Shape::Unsigned64, Some(key)))
                }
            },
            _ => Err(Error::TypeMismatch(Shape::Unsigned64, Some(key))),
        },
    }
}

/// The members that a sequence of name fields holds, in the same order.
pub fn named_members<E: NamedEnum>(named: Vec<Named<E>>) -> (r: Vec<E>)
    ensures
        r@ == named.deep_view(),
{
    let ghost all = named@;
    let mut out: Vec<E> = Vec::new();
    for item in it: named
        invariant
            it.seq() == all,
            out@.len() == it.index(),
            forall|i: int| 0 <= i < out@.len() ==> out@[i] == (#[trigger] all[i]).0,
    {
        out.push(item.0);
    }
    assert(out@ =~= named.deep_view());
    out
}

} // verus!
