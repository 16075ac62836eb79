//! Guilds that may be out of reach.

use crate::access::expect_map;
use crate::decode::optional_field;
use crate::decode::peek_bool;
use crate::decode::required;
use crate::decode::required_field;
use crate::decode::Decode;
use crate::error::Error;
use crate::error::Shape;
use crate::ident::GuildId;
use crate::value::Value;
use vstd::prelude::*;

verus! {

/// A guild that is at hand, or the id of one that is out of reach for now.
#[derive(Clone, Debug, PartialEq, Eq)]
pub enum PossibleGuild<T> {
    /// The guild is out of reach; only its id is known.
    Offline(GuildId),
    /// The guild is at hand.
    Online(T),
}

/// The model of a guild that may be out of reach.
pub enum PossibleGuildModel<M> {
    Offline(GuildId),
    Online(M),
}

impl<T: DeepView> DeepView for PossibleGuild<T> {
    type V = PossibleGuildModel<T::V>;

    open spec fn deep_view(&self) -> PossibleGuildModel<T::V> {
        match self {
            PossibleGuild::Offline(id) => PossibleGuildModel::Offline(*id),
            PossibleGuild::Online(guild) => PossibleGuildModel::Online(guild.deep_view()),
        }
    }
}

impl<T: Decode> Decode for PossibleGuild<T> {
    /// A mapping whose field `unavailable` holds `true` gives the id in its field `id`; any
    /// other mapping is decoded as the guild itself. A field `unavailable` that holds no
    /// boolean is a shape mismatch.
    open spec fn decoded(value: Value) -> Result<PossibleGuildModel<<T as DeepView>::V>, Error> {
        match value {
            Value::Mapping(source) => match optional_field::<bool>(source@, "unavailable") {
                Err(e) => Err(e),
                Ok(Some(true)) => match required_field::<GuildId>(source@, "id") {
                    Ok(id) => Ok(PossibleGuildModel::Offline(id)),
                    Err(e) => Err(e),
                },
                Ok(_) => match T::decoded(value) {
                    Ok(guild) => Ok(PossibleGuildModel::Online(guild)),
                    Err(e) => Err(e),
                },
            },
            _ => Err(Error::mismatch(Shape::Mapping)),
        }
    }

    fn decode(value: Value) -> (r: Result<PossibleGuild<T>, Error>) {
        let mut source = expect_map(value)?;
        let unavailable = peek_bool(&source, "unavailable")?;
        match unavailable {
            Some(true) => {
                let id = required::<GuildId>(&mut source, "id")?;
                Ok(PossibleGuild::Offline(id))
            },
            _ => match T::decode(Value::Mapping(source)) {
                Ok(guild) => Ok(PossibleGuild::Online(guild)),
                Err(e) => Err(e),
            },
        }
    }
}

} // verus!
