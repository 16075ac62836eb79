//! A channel of any kind.

use crate::access::expect_map;
use crate::codec::peek_ordinal;
use crate::codec::Numbered;
use crate::decode::fails_with;
use crate::decode::required_field;
use crate::decode::Decode;
use crate::error::Error;
use crate::error::Shape;
use crate::keyed::Keyed;
use crate::kinds::ChannelType;
use crate::records::channel::Group;
use crate::records::channel::GroupModel;
use crate::records::channel::GuildChannel;
use crate::records::channel::GuildChannelModel;
use crate::records::channel::PrivateChannel;
use crate::records::channel::PrivateChannelModel;
use crate::value::Value;
use vstd::prelude::*;

verus! {

/// A channel of any kind.
#[derive(Clone, Debug, PartialEq, Eq)]
pub enum Channel {
    /// A group.
    Group(Group),
    /// A text or voice channel of a guild.
    Guild(GuildChannel),
    /// A private channel with one other user.
    Private(PrivateChannel),
}

/// The model of a channel of any kind.
pub enum ChannelModel {
    Group(GroupModel),
    Guild(GuildChannelModel),
    Private(PrivateChannelModel),
}

impl DeepView for Channel {
    type V = ChannelModel;

    open spec fn deep_view(&self) -> ChannelModel {
        match self {
            Channel::Group(group) => ChannelModel::Group(group.deep_view()),
            Channel::Guild(channel) => ChannelModel::Guild(channel.deep_view()),
            Channel::Private(channel) => ChannelModel::Private(channel.deep_view()),
        }
    }
}

impl Channel {
    /// What a mapping with the contents `source` gives as a channel. The field `type` holds
    /// the ordinal of the channel's kind, as `ChannelType` numbers the kinds, and decides
    /// which record the mapping is decoded as: 0 a group, 1 a private channel, 2 (text) and
    /// 3 (voice) a guild channel. Any other number is an invalid enum value. These are the
    /// ordinals by which the records themselves read the same field, so a channel that
    /// is decoded as a guild channel is one of text or of voice.
    pub open spec fn from_fields(source: Map<Seq<char>, Value>) -> Result<ChannelModel, Error> {
        match required_field::<Numbered<ChannelType>>(source, "type") {
            Err(e) => Err(e),
            Ok(ChannelType::Group) => match Group::from_fields(source) {
                Ok(group) => Ok(ChannelModel::Group(group)),
                Err(e) => Err(e),
            },
            Ok(ChannelType::Private) => match PrivateChannel::from_fields(source) {
                Ok(channel) => Ok(ChannelModel::Private(channel)),
                Err(e) => Err(e),
            },
            Ok(_) => match GuildChannel::from_fields(source) {
                Ok(channel) => Ok(ChannelModel::Guild(channel)),
                Err(e) => Err(e),
            },
        }
    }

    /// A mapping without the field `type` is no channel: the error names that field.
    pub proof fn lemma_kind_is_required(source: Map<Seq<char>, Value>)
        requires
            !source.contains_key("type"@),
        ensures
            fails_with(Channel::from_fields(source), Error::MissingField("type")),
    {
    }
}

impl Decode for Channel {
    open spec fn decoded(value: Value) -> Result<ChannelModel, Error> {
        match value {
            Value::Mapping(source) => Channel::from_fields(source@),
            _ => Err(Error::mismatch(Shape::Mapping)),
        }
    }

    fn decode(value: Value) -> (r: Result<Channel, Error>) {
        let source = expect_map(value)?;
        let kind = peek_ordinal::<ChannelType>(&source, "type")?;
        match kind {
            ChannelType::Group => match Group::decode(Value::Mapping(source)) {
                Ok(group) => Ok(Channel::Group(group)),
                Err(e) => Err(e),
            },
            ChannelType::Private => match PrivateChannel::decode(Value::Mapping(source)) {
                Ok(channel) => Ok(Channel::Private(channel)),
                Err(e) => Err(e),
            },
            _ => match GuildChannel::decode(Value::Mapping(source)) {
                Ok(channel) => Ok(Channel::Guild(channel)),
                Err(e) => Err(e),
            },
        }
    }
}

impl Keyed for Channel {
    open spec fn key_of(model: ChannelModel) -> u64 {
        match model {
            ChannelModel::Group(group) => group.channel_id.0,
            ChannelModel::Guild(channel) => channel.id.0,
            ChannelModel::Private(channel) => channel.id.0,
        }
    }

    fn key(&self) -> (r: u64) {
        match self {
            Channel::Group(group) => group.channel_id.0,
            Channel::Guild(channel) => channel.id.0,
            Channel::Private(channel) => channel.id.0,
        }
    }
}

} // verus!
