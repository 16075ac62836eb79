//! Identifiers: one distinct type for each kind of entity, each a 64-bit number.

use crate::decode::Decode;
use crate::error::Error;
use crate::error::Shape;
use crate::text::is_numeral;
use crate::text::parse_u64;
use crate::text::parse_u64_spec;
use crate::value::Value;
use vstd::prelude::*;

verus! {

/// The number that `value` gives as an identifier: the integer itself where it fits in 64
/// unsigned bits, or the number that a string denotes as a decimal numeral. Anything else is
/// a mismatch naming `Shape::Identifier`.
pub open spec fn decoded_id(value: Value) -> Result<u64, Error> {
    match value {
        Value::Integer(n) if 0 <= n <= u64::MAX => Ok(n as u64),
        Value::Text(s) => match parse_u64_spec(s@) {
            Some(n) => Ok(n),
            None => Err(Error::mismatch(Shape::Identifier)),
        },
        _ => Err(Error::mismatch(Shape::Identifier)),
    }
}

/// Decodes the number of an identifier, given as an integer or as a numeric string.
pub fn decode_id(value: Value) -> (r: Result<u64, Error>)
    ensures
        r == decoded_id(value),
{
    match value {
        Value::Integer(n) => {
            if 0 <= n && n <= 0xffff_ffff_ffff_ffff {
                Ok(n as u64)
            } else {
                Err(Error::TypeMismatch(Shape::Identifier, None))
            }
        },
        Value::Text(s) => match parse_u64(s.as_str()) {
            Some(n) => Ok(n),
            None => Err(Error::TypeMismatch(Shape::Identifier, None)),
        },
        _ => Err(Error::TypeMismatch(Shape::Identifier, None)),
    }
}

/// An identifier of which the kind of entity is not known yet.
#[derive(Clone, Copy, Debug, PartialEq, Eq, Structural, Hash, PartialOrd, Ord)]
pub struct Snowflake(pub u64);

impl DeepView for Snowflake {
    type V = Snowflake;

    open spec fn deep_view(&self) -> Snowflake {
        *self
    }
}

impl Decode for Snowflake {
    open spec fn decoded(value: Value) -> Result<Snowflake, Error> {
        match decoded_id(value) {
            Ok(number) => Ok(Snowflake(number)),
            Err(e) => Err(e),
        }
    }

    fn decode(value: Value) -> (r: Result<Snowflake, Error>) {
        match decode_id(value) {
            Ok(number) => Ok(Snowflake(number)),
            Err(e) => Err(e),
        }
    }
}

/// A string and a number that denote one identifier decode to the same identifier.
pub proof fn lemma_id_forms_agree(text: String, number: u64)
    requires
        parse_u64_spec(text@) == Some(number),
    ensures
        decoded_id(Value::Text(text)) == decoded_id(Value::Integer(number as i128)),
        decoded_id(Value::Text(text)) == Ok::<u64, Error>(number),
{
}

/// A string that is no decimal numeral is no identifier.
pub proof fn lemma_id_not_numeric(text: String)
    requires
        !is_numeral(text@),
    ensures
        decoded_id(Value::Text(text)) == Err::<u64, Error>(Error::mismatch(Shape::Identifier)),
{
}

/// Whether `author` is the owner whose id the text `configured` gives as a decimal numeral.
/// The text must be such a numeral: `text::parse_u64` tells whether it is.
pub fn owner_check(author: UserId, configured: &str) -> (r: bool)
    requires
        parse_u64_spec(configured@) is Some,
    ensures
        r == (author.0 == parse_u64_spec(configured@)->Some_0),
{
    match parse_u64(configured) {
        Some(owner) => author.0 == owner,
        None => false,
    }
}

/// The identifier of a channel.
#[derive(Clone, Copy, Debug, PartialEq, Eq, Structural, Hash, PartialOrd, Ord)]
pub struct ChannelId(pub u64);

impl DeepView for ChannelId {
    type V = ChannelId;

    open spec fn deep_view(&self) -> ChannelId {
        *self
    }
}

impl Decode for ChannelId {
    open spec fn decoded(value: Value) -> Result<ChannelId, Error> {
        match decoded_id(value) {
            Ok(number) => Ok(ChannelId(number)),
            Err(e) => Err(e),
        }
    }

    fn decode(value: Value) -> (r: Result<ChannelId, Error>) {
        match decode_id(value) {
            Ok(number) => Ok(ChannelId(number)),
            Err(e) => Err(e),
        }
    }
}

/// The identifier of an emoji.
#[derive(Clone, Copy, Debug, PartialEq, Eq, Structural, Hash, PartialOrd, Ord)]
pub struct EmojiId(pub u64);

impl DeepView for EmojiId {
    type V = EmojiId;

    open spec fn deep_view(&self) -> EmojiId {
        *self
    }
}

impl Decode for EmojiId {
    open spec fn decoded(value: Value) -> Result<EmojiId, Error> {
        match decoded_id(value) {
            Ok(number) => Ok(EmojiId(number)),
            Err(e) => Err(e),
        }
    }

    fn decode(value: Value) -> (r: Result<EmojiId, Error>) {
        match decode_id(value) {
            Ok(number) => Ok(EmojiId(number)),
            Err(e) => Err(e),
        }
    }
}

/// The identifier of a guild.
#[derive(Clone, Copy, Debug, PartialEq, Eq, Structural, Hash, PartialOrd, Ord)]
pub struct GuildId(pub u64);

impl DeepView for GuildId {
    type V = GuildId;

    open spec fn deep_view(&self) -> GuildId {
        *self
    }
}

impl Decode for GuildId {
    open spec fn decoded(value: Value) -> Result<GuildId, Error> {
        match decoded_id(value) {
            Ok(number) => Ok(GuildId(number)),
            Err(e) => Err(e),
        }
    }

    fn decode(value: Value) -> (r: Result<GuildId, Error>) {
        match decode_id(value) {
            Ok(number) => Ok(GuildId(number)),
            Err(e) => Err(e),
        }
    }
}

/// The identifier of an integration.
#[derive(Clone, Copy, Debug, PartialEq, Eq, Structural, Hash, PartialOrd, Ord)]
pub struct IntegrationId(pub u64);

impl DeepView for IntegrationId {
    type V = IntegrationId;

    open spec fn deep_view(&self) -> IntegrationId {
        *self
    }
}

impl Decode for IntegrationId {
    open spec fn decoded(value: Value) -> Result<IntegrationId, Error> {
        match decoded_id(value) {
            Ok(number) => Ok(IntegrationId(number)),
            Err(e) => Err(e),
        }
    }

    fn decode(value: Value) -> (r: Result<IntegrationId, Error>) {
        match decode_id(value) {
            Ok(number) => Ok(IntegrationId(number)),
            Err(e) => Err(e),
        }
    }
}

/// The identifier of a message.
#[derive(Clone, Copy, Debug, PartialEq, Eq, Structural, Hash, PartialOrd, Ord)]
pub struct MessageId(pub u64);

impl DeepView for MessageId {
    type V = MessageId;

    open spec fn deep_view(&self) -> MessageId {
        *self
    }
}

impl Decode for MessageId {
    open spec fn decoded(value: Value) -> Result<MessageId, Error> {
        match decoded_id(value) {
            Ok(number) => Ok(MessageId(number)),
            Err(e) => Err(e),
        }
    }

    fn decode(value: Value) -> (r: Result<MessageId, Error>) {
        match decode_id(value) {
            Ok(number) => Ok(MessageId(number)),
            Err(e) => Err(e),
        }
    }
}

/// The identifier of a role.
#[derive(Clone, Copy, Debug, PartialEq, Eq, Structural, Hash, PartialOrd, Ord)]
pub struct RoleId(pub u64);

impl DeepView for RoleId {
    type V = RoleId;

    open spec fn deep_view(&self) -> RoleId {
        *self
    }
}

impl Decode for RoleId {
    open spec fn decoded(value: Value) -> Result<RoleId, Error> {
        match decoded_id(value) {
            Ok(number) => Ok(RoleId(number)),
            Err(e) => Err(e),
        }
    }

    fn decode(value: Value) -> (r: Result<RoleId, Error>) {
        match decode_id(value) {
            Ok(number) => Ok(RoleId(number)),
            Err(e) => Err(e),
        }
    }
}

/// The identifier of a user.
#[derive(Clone, Copy, Debug, PartialEq, Eq, Structural, Hash, PartialOrd, Ord)]
pub struct UserId(pub u64);

impl DeepView for UserId {
    type V = UserId;

    open spec fn deep_view(&self) -> UserId {
        *self
    }
}

impl Decode for UserId {
    open spec fn decoded(value: Value) -> Result<UserId, Error> {
        match decoded_id(value) {
            Ok(number) => Ok(UserId(number)),
            Err(e) => Err(e),
        }
    }

    fn decode(value: Value) -> (r: Result<UserId, Error>) {
        match decode_id(value) {
            Ok(number) => Ok(UserId(number)),
            Err(e) => Err(e),
        }
    }
}

/// The identifier of a webhook.
#[derive(Clone, Copy, Debug, PartialEq, Eq, Structural, Hash, PartialOrd, Ord)]
pub struct WebhookId(pub u64);

impl DeepView for WebhookId {
    type V = WebhookId;

    open spec fn deep_view(&self) -> WebhookId {
        *self
    }
}

impl Decode for WebhookId {
    open spec fn decoded(value: Value) -> Result<WebhookId, Error> {
        match decoded_id(value) {
            Ok(number) => Ok(WebhookId(number)),
            Err(e) => Err(e),
        }
    }

    fn decode(value: Value) -> (r: Result<WebhookId, Error>) {
        match decode_id(value) {
            Ok(number) => Ok(WebhookId(number)),
            Err(e) => Err(e),
        }
    }
}

} // verus!
