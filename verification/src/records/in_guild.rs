//! The channels of a guild, which take the id of their guild from the guild that holds them.

use crate::access::get_field;
use crate::combine::accepted_each;
use crate::combine::accepts;
use crate::combine::decoded_each;
use crate::decode::outcome;
use crate::error::Error;
use crate::error::Shape;
use crate::ident::GuildId;
use crate::keyed::decode_id_keyed_map;
use crate::keyed::keyed_by_id;
use crate::keyed::keyed_models;
use crate::keyed::lemma_keyed_models;
use crate::keyed::IdMap;
use crate::records::channel::GuildChannel;
use crate::records::channel::GuildChannelModel;
use crate::value::Mapping;
use crate::value::Value;
use vstd::prelude::*;

verus! {

/// What decoding each of `items` in order gives as a channel of the guild `guild`: the
/// models of the channels, or the error of the first value that fails.
pub open spec fn channel_items(items: Seq<Value>, guild: GuildId) -> Result<
    Seq<GuildChannelModel>,
    Error,
>
    decreases items.len(),
{
    if items.len() == 0 {
        Ok(Seq::empty())
    } else {
        match channel_items(items.drop_last(), guild) {
            Err(e) => Err(e),
            Ok(init) => match GuildChannel::decoded_in(items.last(), guild) {
                Err(e) => Err(e),
                Ok(last) => Ok(init.push(last)),
            },
        }
    }
}

/// Where every value decodes, the sequence decodes to the channels in the same order.
pub proof fn lemma_channel_items_ok(
    items: Seq<Value>,
    guild: GuildId,
    models: Seq<GuildChannelModel>,
)
    requires
        models.len() == items.len(),
        forall|i: int|
            0 <= i < items.len() ==> GuildChannel::decoded_in(#[trigger] items[i], guild) == Ok::<
                GuildChannelModel,
                Error,
            >(models[i]),
    ensures
        channel_items(items, guild) == Ok::<Seq<GuildChannelModel>, Error>(models),
    decreases items.len(),
{
    if items.len() == 0 {
        assert(models =~= Seq::empty());
    } else {
        lemma_channel_items_ok(items.drop_last(), guild, models.drop_last());
        assert(GuildChannel::decoded_in(items.last(), guild) == Ok::<GuildChannelModel, Error>(
            models.last(),
        ));
        assert(models.drop_last().push(models.last()) =~= models);
    }
}

/// Where the value at `k` is the first that fails, the sequence fails with its error.
pub proof fn lemma_channel_items_err(items: Seq<Value>, guild: GuildId, k: int, e: Error)
    requires
        0 <= k < items.len(),
        forall|i: int| 0 <= i < k ==> GuildChannel::decoded_in(#[trigger] items[i], guild) is Ok,
        GuildChannel::decoded_in(items[k], guild) == Err::<GuildChannelModel, Error>(e),
    ensures
        channel_items(items, guild) == Err::<Seq<GuildChannelModel>, Error>(e),
    decreases items.len(),
{
    let init = items.drop_last();
    if k == items.len() - 1 {
        let models = Seq::new(k as nat, |i: int| GuildChannel::decoded_in(items[i], guild)->Ok_0);
        assert forall|i: int| 0 <= i < init.len() implies GuildChannel::decoded_in(
            #[trigger] init[i],
            guild,
        ) == Ok::<GuildChannelModel, Error>(models[i]) by {
            assert(init[i] == items[i]);
        }
        lemma_channel_items_ok(init, guild, models);
    } else {
        assert forall|i: int| 0 <= i < k implies GuildChannel::decoded_in(
            #[trigger] init[i],
            guild,
        ) is Ok by {
            assert(init[i] == items[i]);
        }
        assert(init[k] == items[k]);
        lemma_channel_items_err(init, guild, k, e);
    }
}

/// What a value gives as the channels of the guild `guild`: a sequence of channels, each
/// decoded as a channel of that guild and kept under its own id; the error of the first
/// channel that fails; a mismatch naming `Shape::Sequence` for a value that is no sequence.
pub open spec fn guild_channels(value: Value, guild: GuildId) -> Result<
    Map<u64, GuildChannelModel>,
    Error,
> {
    match value {
        Value::Sequence(items) => match channel_items(items@, guild) {
            Ok(models) => Ok(keyed_models::<GuildChannel>(models)),
            Err(e) => Err(e),
        },
        _ => Err(Error::mismatch(Shape::Sequence)),
    }
}

/// Decodes the channels of the guild `guild`, handing the id of the guild to each.
pub fn decode_guild_channels(value: Value, guild: GuildId) -> (r: Result<
    IdMap<GuildChannel>,
    Error,
>)
    ensures
        outcome(r) == guild_channels(value, guild),
{
    let ghost given = value;
    let decoder = |v: Value| -> (c: Result<GuildChannel, Error>)
        ensures
            outcome(c) == GuildChannel::decoded_in(v, guild),
        { GuildChannel::decode_guild(v, guild) };
    let r = decode_id_keyed_map(value, decoder);
    proof {
        if given is Sequence {
            let items = given->Sequence_0@;
            if r is Ok {
                let map = r->Ok_0;
                let out = choose|out: Seq<GuildChannel>|
                    out.len() == items.len() && #[trigger] decoded_each(
                        decoder,
                        items,
                        out,
                        items.len() as int,
                    ) && map@ == keyed_by_id(out);
                let models = Seq::new(out.len(), |i: int| out[i].deep_view());
                assert forall|i: int| 0 <= i < items.len() implies GuildChannel::decoded_in(
                    #[trigger] items[i],
                    guild,
                ) == Ok::<GuildChannelModel, Error>(models[i]) by {
                    assert(decoder.ensures((items[i],), Ok(out[i])));
                }
                lemma_channel_items_ok(items, guild, models);
                lemma_keyed_models::<GuildChannel>(out);
            } else {
                let e = r->Err_0;
                let k = choose|k: int|
                    0 <= k < items.len() && accepted_each(decoder, items, k) && decoder.ensures(
                        (#[trigger] items[k],),
                        Err::<GuildChannel, Error>(e),
                    );
                assert forall|i: int| 0 <= i < k implies GuildChannel::decoded_in(
                    #[trigger] items[i],
                    guild,
                ) is Ok by {
                    assert(accepts(decoder, items[i]));
                }
                lemma_channel_items_err(items, guild, k, e);
            }
        }
    }
    r
}

/// What the required field `key` of a guild gives as the channels of the guild `guild`: a
/// `MissingField` where the key is absent; else what its value gives as the channels of that
/// guild, an error being placed at the field.
pub open spec fn guild_channels_field(
    source: Map<Seq<char>, Value>,
    key: &'static str,
    guild: GuildId,
) -> Result<Map<u64, GuildChannelModel>, Error> {
    if source.contains_key(key@) {
        match guild_channels(source[key@], guild) {
            Ok(channels) => Ok(channels),
            Err(e) => Err(e.at_spec(key)),
        }
    } else {
        Err(Error::MissingField(key))
    }
}

/// Takes the required field `key` out of `source` and decodes it as the channels of the
/// guild `guild`.
pub fn required_guild_channels(source: &mut Mapping, key: &'static str, guild: GuildId) -> (r:
    Result<IdMap<GuildChannel>, Error>)
    ensures
        outcome(r) == guild_channels_field(old(source)@, key, guild),
        final(source)@ == old(source)@.remove(key@),
{
    let value = get_field(source, key)?;
    match decode_guild_channels(value, guild) {
        Ok(channels) => Ok(channels),
        Err(e) => Err(e.at(key)),
    }
}

} // verus!
