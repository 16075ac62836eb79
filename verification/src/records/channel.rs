//! Channels.

use crate::access::expect_map;
use crate::codec::Numbered;
use crate::decode::Decode;
use crate::decode::First;
use crate::decode::fails_with;
use crate::decode::optional;
use crate::decode::optional_field;
use crate::decode::outcome;
use crate::decode::required;
use crate::decode::required_field;
use crate::error::Error;
use crate::error::Shape;
use crate::ident::ChannelId;
use crate::ident::GuildId;
use crate::ident::MessageId;
use crate::ident::UserId;
use crate::keyed::IdMap;
use crate::keyed::Keyed;
use crate::kinds::ChannelType;
use crate::records::overwrite::PermissionOverwrite;
use crate::records::user::User;
use crate::records::user::UserModel;
use crate::value::Mapping;
use crate::value::Value;
use vstd::prelude::*;

verus! {

/// A group: a channel of several users outside any guild.
#[derive(Clone, Debug, PartialEq, Eq)]
pub struct Group {
    /// The id of the channel. On the wire the field is called `id`.
    pub channel_id: ChannelId,
    /// The hash of the icon, if one is set.
    pub icon: Option<String>,
    /// The last message sent, if any.
    pub last_message_id: Option<MessageId>,
    /// When a message was last pinned, if ever.
    pub last_pin_timestamp: Option<String>,
    /// The name of the group, if one is set.
    pub name: Option<String>,
    /// The user who made the group.
    pub owner_id: UserId,
    /// The other users in the group.
    pub recipients: IdMap<User>,
}

/// The model of a group: what the record holds, as a mathematical value.
pub struct GroupModel {
    pub channel_id: ChannelId,
    pub icon: Option<Seq<char>>,
    pub last_message_id: Option<MessageId>,
    pub last_pin_timestamp: Option<Seq<char>>,
    pub name: Option<Seq<char>>,
    pub owner_id: UserId,
    pub recipients: Map<u64, UserModel>,
}

impl DeepView for Group {
    type V = GroupModel;

    open spec fn deep_view(&self) -> GroupModel {
        GroupModel {
            channel_id: self.channel_id.deep_view(),
            icon: self.icon.deep_view(),
            last_message_id: self.last_message_id.deep_view(),
            last_pin_timestamp: self.last_pin_timestamp.deep_view(),
            name: self.name.deep_view(),
            owner_id: self.owner_id.deep_view(),
            recipients: self.recipients.deep_view(),
        }
    }
}

impl Group {
    /// What a mapping with the contents `source` gives as a group: the record put together from
    /// its fields, or the error of the first field, in the order written here, that fails.
    pub open spec fn from_fields(source: Map<Seq<char>, Value>) -> Result<GroupModel, Error> {
        let channel_id = required_field::<ChannelId>(source, "id");
        let icon = optional_field::<String>(source, "icon");
        let last_message_id = optional_field::<MessageId>(source, "last_message_id");
        let last_pin_timestamp = optional_field::<String>(source, "last_pin_timestamp");
        let name = optional_field::<String>(source, "name");
        let owner_id = required_field::<UserId>(source, "owner_id");
        let recipients = required_field::<IdMap<User>>(source, "recipients");
        if channel_id is Err {
            Err(channel_id->Err_0)
        } else if icon is Err {
            Err(icon->Err_0)
        } else if last_message_id is Err {
            Err(last_message_id->Err_0)
        } else if last_pin_timestamp is Err {
            Err(last_pin_timestamp->Err_0)
        } else if name is Err {
            Err(name->Err_0)
        } else if owner_id is Err {
            Err(owner_id->Err_0)
        } else if recipients is Err {
            Err(recipients->Err_0)
        } else {
            Ok(
                GroupModel {
                    channel_id: channel_id->Ok_0,
                    icon: icon->Ok_0,
                    last_message_id: last_message_id->Ok_0,
                    last_pin_timestamp: last_pin_timestamp->Ok_0,
                    name: name->Ok_0,
                    owner_id: owner_id->Ok_0,
                    recipients: recipients->Ok_0,
                },
            )
        }
    }

    /// What tells the field names of a group apart: their lengths and, among names of one
    /// length, their letters.
    pub proof fn lemma_field_names()
        ensures
            "id"@.len() == 2,
            "icon"@.len() == 4,
            "last_message_id"@.len() == 15,
            "last_pin_timestamp"@.len() == 18,
            "name"@.len() == 4,
            "owner_id"@.len() == 8,
            "recipients"@.len() == 10,
            "icon"@[0] == 'i',
            "name"@[0] == 'n',
    {
        reveal_strlit("id");
        reveal_strlit("icon");
        reveal_strlit("last_message_id");
        reveal_strlit("last_pin_timestamp");
        reveal_strlit("name");
        reveal_strlit("owner_id");
        reveal_strlit("recipients");
    }

    /// A mapping that holds the required fields of a group and no other, each with a value that
    /// decodes, is decoded.
    pub proof fn lemma_minimal_decodes(source: Map<Seq<char>, Value>)
        requires
            source.dom() =~= set!["id"@, "owner_id"@, "recipients"@],
            ChannelId::decoded(source["id"@]) is Ok,
            UserId::decoded(source["owner_id"@]) is Ok,
            <IdMap<User>>::decoded(source["recipients"@]) is Ok,
        ensures
            Group::from_fields(source) is Ok,
    {
        Group::lemma_field_names();
    }

    /// Without one of its required fields, a mapping that was decoded as a group fails, and the
    /// error names exactly the field that is gone.
    pub proof fn lemma_missing_required_field(source: Map<Seq<char>, Value>)
        requires
            Group::from_fields(source) is Ok,
        ensures
            fails_with(
                Group::from_fields(source.remove("id"@)),
                Error::MissingField("id"),
            ),
            fails_with(
                Group::from_fields(source.remove("owner_id"@)),
                Error::MissingField("owner_id"),
            ),
            fails_with(
                Group::from_fields(source.remove("recipients"@)),
                Error::MissingField("recipients"),
            ),
    {
        Group::lemma_field_names();
    }

    /// A field that a group does not have changes nothing: it is passed over, whatever it
    /// holds.
    pub proof fn lemma_unknown_field_ignored(
        source: Map<Seq<char>, Value>,
        key: Seq<char>,
        value: Value,
    )
        requires
            key != "id"@,
            key != "icon"@,
            key != "last_message_id"@,
            key != "last_pin_timestamp"@,
            key != "name"@,
            key != "owner_id"@,
            key != "recipients"@,
        ensures
            Group::from_fields(source.insert(key, value)) == Group::from_fields(source),
    {
    }

    /// An optional field of a group that is absent is decoded as absent, or as its default. One
    /// that is present with a value of the wrong shape is not taken for absent: the record
    /// fails with that mismatch, which names the field.
    pub proof fn lemma_optional_fields(
        source: Map<Seq<char>, Value>,
        wrong: Value,
        expected: Shape,
    )
        requires
            Group::from_fields(source) is Ok,
        ensures
            !source.contains_key("icon"@) ==> Group::from_fields(source)->Ok_0.icon is None,
            fails_with(String::decoded(wrong), Error::mismatch(expected)) ==> fails_with(
                Group::from_fields(source.insert("icon"@, wrong)),
                Error::TypeMismatch(expected, Some("icon")),
            ),
            !source.contains_key("last_message_id"@)
                ==> Group::from_fields(source)->Ok_0.last_message_id is None,
            fails_with(MessageId::decoded(wrong), Error::mismatch(expected)) ==> fails_with(
                Group::from_fields(source.insert("last_message_id"@, wrong)),
                Error::TypeMismatch(expected, Some("last_message_id")),
            ),
            !source.contains_key("last_pin_timestamp"@)
                ==> Group::from_fields(source)->Ok_0.last_pin_timestamp is None,
            fails_with(String::decoded(wrong), Error::mismatch(expected)) ==> fails_with(
                Group::from_fields(source.insert("last_pin_timestamp"@, wrong)),
                Error::TypeMismatch(expected, Some("last_pin_timestamp")),
            ),
            !source.contains_key("name"@) ==> Group::from_fields(source)->Ok_0.name is None,
            fails_with(String::decoded(wrong), Error::mismatch(expected)) ==> fails_with(
                Group::from_fields(source.insert("name"@, wrong)),
                Error::TypeMismatch(expected, Some("name")),
            ),
    {
        Group::lemma_field_names();
    }
}

impl Decode for Group {
    open spec fn decoded(value: Value) -> Result<GroupModel, Error> {
        match value {
            Value::Mapping(source) => Group::from_fields(source@),
            _ => Err(Error::mismatch(Shape::Mapping)),
        }
    }

    fn decode(value: Value) -> (r: Result<Group, Error>) {
        let mut source = expect_map(value)?;
        proof {
            Group::lemma_field_names();
        }
        let channel_id = required::<ChannelId>(&mut source, "id")?;
        let icon = optional::<String>(&mut source, "icon")?;
        let last_message_id = optional::<MessageId>(&mut source, "last_message_id")?;
        let last_pin_timestamp = optional::<String>(&mut source, "last_pin_timestamp")?;
        let name = optional::<String>(&mut source, "name")?;
        let owner_id = required::<UserId>(&mut source, "owner_id")?;
        let recipients = required::<IdMap<User>>(&mut source, "recipients")?;
        Ok(
            Group {
                channel_id,
                icon,
                last_message_id,
                last_pin_timestamp,
                name,
                owner_id,
                recipients,
            },
        )
    }
}

/// A text or voice channel of a guild.
#[derive(Clone, Debug, PartialEq, Eq)]
pub struct GuildChannel {
    /// The id of the channel.
    pub id: ChannelId,
    /// The bitrate, for a voice channel.
    pub bitrate: Option<u64>,
    /// The guild that the channel belongs to.
    pub guild_id: GuildId,
    /// Whether the channel is for text or for voice. On the wire the field is called `type`.
    pub kind: ChannelType,
    /// The last message sent, if any.
    pub last_message_id: Option<MessageId>,
    /// When a message was last pinned, if ever.
    pub last_pin_timestamp: Option<String>,
    /// The name of the channel.
    pub name: String,
    /// The permission overwrites for members and roles.
    pub permission_overwrites: Vec<PermissionOverwrite>,
    /// The place of the channel in the list.
    pub position: i64,
    /// The topic, for a text channel.
    pub topic: Option<String>,
    /// How many users a voice channel takes, if that is limited.
    pub user_limit: Option<u64>,
}

/// The model of a guild channel: what the record holds, as a mathematical value.
pub struct GuildChannelModel {
    pub id: ChannelId,
    pub bitrate: Option<u64>,
    pub guild_id: GuildId,
    pub kind: ChannelType,
    pub last_message_id: Option<MessageId>,
    pub last_pin_timestamp: Option<Seq<char>>,
    pub name: Seq<char>,
    pub permission_overwrites: Seq<PermissionOverwrite>,
    pub position: i64,
    pub topic: Option<Seq<char>>,
    pub user_limit: Option<u64>,
}

impl DeepView for GuildChannel {
    type V = GuildChannelModel;

    open spec fn deep_view(&self) -> GuildChannelModel {
        GuildChannelModel {
            id: self.id.deep_view(),
            bitrate: self.bitrate.deep_view(),
            guild_id: self.guild_id.deep_view(),
            kind: self.kind.deep_view(),
            last_message_id: self.last_message_id.deep_view(),
            last_pin_timestamp: self.last_pin_timestamp.deep_view(),
            name: self.name.deep_view(),
            permission_overwrites: self.permission_overwrites.deep_view(),
            position: self.position.deep_view(),
            topic: self.topic.deep_view(),
            user_limit: self.user_limit.deep_view(),
        }
    }
}

impl GuildChannel {
    /// What a mapping with the contents `source` gives as a guild channel of the guild
    /// `guild_id`: the record put together from its fields and that id, or the error of the
    /// first field, in the order written here, that fails.
    pub open spec fn from_fields_in(source: Map<Seq<char>, Value>, guild_id: GuildId) -> Result<
        GuildChannelModel,
        Error,
    > {
        let id = required_field::<ChannelId>(source, "id");
        let name = required_field::<String>(source, "name");
        let topic = optional_field::<String>(source, "topic");
        let position = required_field::<i64>(source, "position");
        let kind = required_field::<Numbered<ChannelType>>(source, "type");
        let last_message_id = optional_field::<MessageId>(source, "last_message_id");
        let permission_overwrites = required_field::<Vec<PermissionOverwrite>>(
            source,
            "permission_overwrites",
        );
        let bitrate = optional_field::<u64>(source, "bitrate");
        let user_limit = optional_field::<u64>(source, "user_limit");
        let last_pin_timestamp = optional_field::<String>(source, "last_pin_timestamp");
        if id is Err {
            Err(id->Err_0)
        } else if name is Err {
            Err(name->Err_0)
        } else if topic is Err {
            Err(topic->Err_0)
        } else if position is Err {
            Err(position->Err_0)
        } else if kind is Err {
            Err(kind->Err_0)
        } else if last_message_id is Err {
            Err(last_message_id->Err_0)
        } else if permission_overwrites is Err {
            Err(permission_overwrites->Err_0)
        } else if bitrate is Err {
            Err(bitrate->Err_0)
        } else if user_limit is Err {
            Err(user_limit->Err_0)
        } else if last_pin_timestamp is Err {
            Err(last_pin_timestamp->Err_0)
        } else {
            Ok(
                GuildChannelModel {
                    id: id->Ok_0,
                    bitrate: bitrate->Ok_0,
                    guild_id,
                    kind: kind->Ok_0,
                    last_message_id: last_message_id->Ok_0,
                    last_pin_timestamp: last_pin_timestamp->Ok_0,
                    name: name->Ok_0,
                    permission_overwrites: permission_overwrites->Ok_0,
                    position: position->Ok_0,
                    topic: topic->Ok_0,
                    user_limit: user_limit->Ok_0,
                },
            )
        }
    }

    /// What a mapping with the contents `source` gives as a guild channel that names its own
    /// guild: the field `guild_id` is read first, then the rest as for a channel of that guild.
    pub open spec fn from_fields(source: Map<Seq<char>, Value>) -> Result<
        GuildChannelModel,
        Error,
    > {
        match required_field::<GuildId>(source, "guild_id") {
            Err(e) => Err(e),
            Ok(guild_id) => GuildChannel::from_fields_in(source, guild_id),
        }
    }

    /// What `decode_guild` gives: the record for a mapping, a mismatch naming `Shape::Mapping`
    /// for any other value.
    pub open spec fn decoded_in(value: Value, guild_id: GuildId) -> Result<
        GuildChannelModel,
        Error,
    > {
        match value {
            Value::Mapping(source) => GuildChannel::from_fields_in(source@, guild_id),
            _ => Err(Error::mismatch(Shape::Mapping)),
        }
    }

    /// What tells the field names of a guild channel apart: their lengths and, among names of
    /// one length, their letters.
    pub proof fn lemma_field_names()
        ensures
            "guild_id"@.len() == 8,
            "id"@.len() == 2,
            "name"@.len() == 4,
            "topic"@.len() == 5,
            "position"@.len() == 8,
            "type"@.len() == 4,
            "last_message_id"@.len() == 15,
            "permission_overwrites"@.len() == 21,
            "bitrate"@.len() == 7,
            "user_limit"@.len() == 10,
            "last_pin_timestamp"@.len() == 18,
            "name"@[0] == 'n',
            "type"@[0] == 't',
            "guild_id"@[0] == 'g',
            "position"@[0] == 'p',
    {
        reveal_strlit("guild_id");
        reveal_strlit("id");
        reveal_strlit("name");
        reveal_strlit("topic");
        reveal_strlit("position");
        reveal_strlit("type");
        reveal_strlit("last_message_id");
        reveal_strlit("permission_overwrites");
        reveal_strlit("bitrate");
        reveal_strlit("user_limit");
        reveal_strlit("last_pin_timestamp");
    }

    /// A mapping that holds the required fields of a guild channel and no other, each with a
    /// value that decodes, is decoded.
    pub proof fn lemma_minimal_decodes(source: Map<Seq<char>, Value>)
        requires
            source.dom() =~= set![
                "guild_id"@,
                "id"@,
                "name"@,
                "position"@,
                "type"@,
                "permission_overwrites"@,
            ],
            GuildId::decoded(source["guild_id"@]) is Ok,
            ChannelId::decoded(source["id"@]) is Ok,
            String::decoded(source["name"@]) is Ok,
            i64::decoded(source["position"@]) is Ok,
            <Numbered<ChannelType>>::decoded(source["type"@]) is Ok,
            <Vec<PermissionOverwrite>>::decoded(source["permission_overwrites"@]) is Ok,
        ensures
            GuildChannel::from_fields(source) is Ok,
    {
        GuildChannel::lemma_field_names();
    }

    /// Without one of its required fields, a mapping that was decoded as a guild channel fails,
    /// and the error names exactly the field that is gone.
    pub proof fn lemma_missing_required_field(source: Map<Seq<char>, Value>)
        requires
            GuildChannel::from_fields(source) is Ok,
        ensures
            fails_with(
                GuildChannel::from_fields(source.remove("guild_id"@)),
                Error::MissingField("guild_id"),
            ),
            fails_with(
                GuildChannel::from_fields(source.remove("id"@)),
                Error::MissingField("id"),
            ),
            fails_with(
                GuildChannel::from_fields(source.remove("name"@)),
                Error::MissingField("name"),
            ),
            fails_with(
                GuildChannel::from_fields(source.remove("position"@)),
                Error::MissingField("position"),
            ),
            fails_with(
                GuildChannel::from_fields(source.remove("type"@)),
                Error::MissingField("type"),
            ),
            fails_with(
                GuildChannel::from_fields(source.remove("permission_overwrites"@)),
                Error::MissingField("permission_overwrites"),
            ),
    {
        GuildChannel::lemma_field_names();
    }

    /// A field that a guild channel does not have changes nothing: it is passed over, whatever
    /// it holds.
    pub proof fn lemma_unknown_field_ignored(
        source: Map<Seq<char>, Value>,
        key: Seq<char>,
        value: Value,
    )
        requires
            key != "guild_id"@,
            key != "id"@,
            key != "name"@,
            key != "topic"@,
            key != "position"@,
            key != "type"@,
            key != "last_message_id"@,
            key != "permission_overwrites"@,
            key != "bitrate"@,
            key != "user_limit"@,
            key != "last_pin_timestamp"@,
        ensures
            GuildChannel::from_fields(source.insert(key, value))
                == GuildChannel::from_fields(source),
    {
    }

    /// An optional field of a guild channel that is absent is decoded as absent, or as its
    /// default. One that is present with a value of the wrong shape is not taken for absent:
    /// the record fails with that mismatch, which names the field.
    pub proof fn lemma_optional_fields(
        source: Map<Seq<char>, Value>,
        wrong: Value,
        expected: Shape,
    )
        requires
            GuildChannel::from_fields(source) is Ok,
        ensures
            !source.contains_key("topic"@)
                ==> GuildChannel::from_fields(source)->Ok_0.topic is None,
            fails_with(String::decoded(wrong), Error::mismatch(expected)) ==> fails_with(
                GuildChannel::from_fields(source.insert("topic"@, wrong)),
                Error::TypeMismatch(expected, Some("topic")),
            ),
            !source.contains_key("last_message_id"@)
                ==> GuildChannel::from_fields(source)->Ok_0.last_message_id is None,
            fails_with(MessageId::decoded(wrong), Error::mismatch(expected)) ==> fails_with(
                GuildChannel::from_fields(source.insert("last_message_id"@, wrong)),
                Error::TypeMismatch(expected, Some("last_message_id")),
            ),
            !source.contains_key("bitrate"@)
                ==> GuildChannel::from_fields(source)->Ok_0.bitrate is None,
            fails_with(u64::decoded(wrong), Error::mismatch(expected)) ==> fails_with(
                GuildChannel::from_fields(source.insert("bitrate"@, wrong)),
                Error::TypeMismatch(expected, Some("bitrate")),
            ),
            !source.contains_key("user_limit"@)
                ==> GuildChannel::from_fields(source)->Ok_0.user_limit is None,
            fails_with(u64::decoded(wrong), Error::mismatch(expected)) ==> fails_with(
                GuildChannel::from_fields(source.insert("user_limit"@, wrong)),
                Error::TypeMismatch(expected, Some("user_limit")),
            ),
            !source.contains_key("last_pin_timestamp"@)
                ==> GuildChannel::from_fields(source)->Ok_0.last_pin_timestamp is None,
            fails_with(String::decoded(wrong), Error::mismatch(expected)) ==> fails_with(
                GuildChannel::from_fields(source.insert("last_pin_timestamp"@, wrong)),
                Error::TypeMismatch(expected, Some("last_pin_timestamp")),
            ),
    {
        GuildChannel::lemma_field_names();
    }

    /// Reads the fields of a guild channel of the guild `guild_id` out of `source`.
    fn read_fields(source: Mapping, guild_id: GuildId) -> (r: Result<GuildChannel, Error>)
        ensures
            outcome(r) == GuildChannel::from_fields_in(source@, guild_id),
    {
        let mut source = source;
        proof {
            GuildChannel::lemma_field_names();
        }
        let id = required::<ChannelId>(&mut source, "id")?;
        let name = required::<String>(&mut source, "name")?;
        let topic = optional::<String>(&mut source, "topic")?;
        let position = required::<i64>(&mut source, "position")?;
        let kind = required::<Numbered<ChannelType>>(&mut source, "type")?;
        let last_message_id = optional::<MessageId>(&mut source, "last_message_id")?;
        let permission_overwrites = required::<Vec<PermissionOverwrite>>(
            &mut source,
            "permission_overwrites",
        )?;
        let bitrate = optional::<u64>(&mut source, "bitrate")?;
        let user_limit = optional::<u64>(&mut source, "user_limit")?;
        let last_pin_timestamp = optional::<String>(&mut source, "last_pin_timestamp")?;
        Ok(
            GuildChannel {
                id,
                bitrate,
                guild_id,
                kind: kind.0,
                last_message_id,
                last_pin_timestamp,
                name,
                permission_overwrites,
                position,
                topic,
                user_limit,
            },
        )
    }

    /// Decodes a guild channel of the guild `guild_id`: a mapping that need not name the guild,
    /// since the guild that holds it is known.
    pub fn decode_guild(value: Value, guild_id: GuildId) -> (r: Result<GuildChannel, Error>)
        ensures
            outcome(r) == GuildChannel::decoded_in(value, guild_id),
    {
        let source = expect_map(value)?;
        GuildChannel::read_fields(source, guild_id)
    }
}

impl Decode for GuildChannel {
    open spec fn decoded(value: Value) -> Result<GuildChannelModel, Error> {
        match value {
            Value::Mapping(source) => GuildChannel::from_fields(source@),
            _ => Err(Error::mismatch(Shape::Mapping)),
        }
    }

    fn decode(value: Value) -> (r: Result<GuildChannel, Error>) {
        let mut source = expect_map(value)?;
        proof {
            GuildChannel::lemma_field_names();
        }
        let guild_id = required::<GuildId>(&mut source, "guild_id")?;
        GuildChannel::read_fields(source, guild_id)
    }
}

impl Keyed for GuildChannel {
    open spec fn key_of(model: GuildChannelModel) -> u64 {
        model.id.0
    }

    fn key(&self) -> (r: u64) {
        self.id.0
    }
}

/// A private channel with one other user.
#[derive(Clone, Debug, PartialEq, Eq)]
pub struct PrivateChannel {
    /// The id of the channel.
    pub id: ChannelId,
    /// The last message sent, if any.
    pub last_message_id: Option<MessageId>,
    /// When a message was last pinned, if ever.
    pub last_pin_timestamp: Option<String>,
    /// The kind of the channel. On the wire the field is called `type`.
    pub kind: ChannelType,
    /// The other user: the first of the users that the channel is told to have. On the wire the
    /// field is called `recipients`.
    pub recipient: User,
}

/// The model of a private channel: what the record holds, as a mathematical value.
pub struct PrivateChannelModel {
    pub id: ChannelId,
    pub last_message_id: Option<MessageId>,
    pub last_pin_timestamp: Option<Seq<char>>,
    pub kind: ChannelType,
    pub recipient: UserModel,
}

impl DeepView for PrivateChannel {
    type V = PrivateChannelModel;

    open spec fn deep_view(&self) -> PrivateChannelModel {
        PrivateChannelModel {
            id: self.id.deep_view(),
            last_message_id: self.last_message_id.deep_view(),
            last_pin_timestamp: self.last_pin_timestamp.deep_view(),
            kind: self.kind.deep_view(),
            recipient: self.recipient.deep_view(),
        }
    }
}

impl PrivateChannel {
    /// What a mapping with the contents `source` gives as a private channel: the record put
    /// together from its fields, or the error of the first field, in the order written here,
    /// that fails.
    pub open spec fn from_fields(source: Map<Seq<char>, Value>) -> Result<
        PrivateChannelModel,
        Error,
    > {
        let recipient = required_field::<First<User>>(source, "recipients");
        let id = required_field::<ChannelId>(source, "id");
        let kind = required_field::<Numbered<ChannelType>>(source, "type");
        let last_message_id = optional_field::<MessageId>(source, "last_message_id");
        let last_pin_timestamp = optional_field::<String>(source, "last_pin_timestamp");
        if recipient is Err {
            Err(recipient->Err_0)
        } else if id is Err {
            Err(id->Err_0)
        } else if kind is Err {
            Err(kind->Err_0)
        } else if last_message_id is Err {
            Err(last_message_id->Err_0)
        } else if last_pin_timestamp is Err {
            Err(last_pin_timestamp->Err_0)
        } else {
            Ok(
                PrivateChannelModel {
                    id: id->Ok_0,
                    last_message_id: last_message_id->Ok_0,
                    last_pin_timestamp: last_pin_timestamp->Ok_0,
                    kind: kind->Ok_0,
                    recipient: recipient->Ok_0,
                },
            )
        }
    }

    /// What tells the field names of a private channel apart: their lengths and, among names of
    /// one length, their letters.
    pub proof fn lemma_field_names()
        ensures
            "recipients"@.len() == 10,
            "id"@.len() == 2,
            "type"@.len() == 4,
            "last_message_id"@.len() == 15,
            "last_pin_timestamp"@.len() == 18,
    {
        reveal_strlit("recipients");
        reveal_strlit("id");
        reveal_strlit("type");
        reveal_strlit("last_message_id");
        reveal_strlit("last_pin_timestamp");
    }

    /// A mapping that holds the required fields of a private channel and no other, each with a
    /// value that decodes, is decoded.
    pub proof fn lemma_minimal_decodes(source: Map<Seq<char>, Value>)
        requires
            source.dom() =~= set!["recipients"@, "id"@, "type"@],
            <First<User>>::decoded(source["recipients"@]) is Ok,
            ChannelId::decoded(source["id"@]) is Ok,
            <Numbered<ChannelType>>::decoded(source["type"@]) is Ok,
        ensures
            PrivateChannel::from_fields(source) is Ok,
    {
        PrivateChannel::lemma_field_names();
    }

    /// Without one of its required fields, a mapping that was decoded as a private channel
    /// fails, and the error names exactly the field that is gone.
    pub proof fn lemma_missing_required_field(source: Map<Seq<char>, Value>)
        requires
            PrivateChannel::from_fields(source) is Ok,
        ensures
            fails_with(
                PrivateChannel::from_fields(source.remove("recipients"@)),
                Error::MissingField("recipients"),
            ),
            fails_with(
                PrivateChannel::from_fields(source.remove("id"@)),
                Error::MissingField("id"),
            ),
            fails_with(
                PrivateChannel::from_fields(source.remove("type"@)),
                Error::MissingField("type"),
            ),
    {
        PrivateChannel::lemma_field_names();
    }

    /// A field that a private channel does not have changes nothing: it is passed over,
    /// whatever it holds.
    pub proof fn lemma_unknown_field_ignored(
        source: Map<Seq<char>, Value>,
        key: Seq<char>,
        value: Value,
    )
        requires
            key != "recipients"@,
            key != "id"@,
            key != "type"@,
            key != "last_message_id"@,
            key != "last_pin_timestamp"@,
        ensures
            PrivateChannel::from_fields(source.insert(key, value))
                == PrivateChannel::from_fields(source),
    {
    }

    /// An optional field of a private channel that is absent is decoded as absent, or as its
    /// default. One that is present with a value of the wrong shape is not taken for absent:
    /// the record fails with that mismatch, which names the field.
    pub proof fn lemma_optional_fields(
        source: Map<Seq<char>, Value>,
        wrong: Value,
        expected: Shape,
    )
        requires
            PrivateChannel::from_fields(source) is Ok,
        ensures
            !source.contains_key("last_message_id"@)
                ==> PrivateChannel::from_fields(source)->Ok_0.last_message_id is None,
            fails_with(MessageId::decoded(wrong), Error::mismatch(expected)) ==> fails_with(
                PrivateChannel::from_fields(source.insert("last_message_id"@, wrong)),
                Error::TypeMismatch(expected, Some("last_message_id")),
            ),
            !source.contains_key("last_pin_timestamp"@)
                ==> PrivateChannel::from_fields(source)->Ok_0.last_pin_timestamp is None,
            fails_with(String::decoded(wrong), Error::mismatch(expected)) ==> fails_with(
                PrivateChannel::from_fields(source.insert("last_pin_timestamp"@, wrong)),
                Error::TypeMismatch(expected, Some("last_pin_timestamp")),
            ),
    {
        PrivateChannel::lemma_field_names();
    }
}

impl Decode for PrivateChannel {
    open spec fn decoded(value: Value) -> Result<PrivateChannelModel, Error> {
        match value {
            Value::Mapping(source) => PrivateChannel::from_fields(source@),
            _ => Err(Error::mismatch(Shape::Mapping)),
        }
    }

    fn decode(value: Value) -> (r: Result<PrivateChannel, Error>) {
        let mut source = expect_map(value)?;
        proof {
            PrivateChannel::lemma_field_names();
        }
        let recipient = required::<First<User>>(&mut source, "recipients")?;
        let id = required::<ChannelId>(&mut source, "id")?;
        let kind = required::<Numbered<ChannelType>>(&mut source, "type")?;
        let last_message_id = optional::<MessageId>(&mut source, "last_message_id")?;
        let last_pin_timestamp = optional::<String>(&mut source, "last_pin_timestamp")?;
        Ok(
            PrivateChannel {
                id,
                last_message_id,
                last_pin_timestamp,
                kind: kind.0,
                recipient: recipient.0,
            },
        )
    }
}

/// What the current user has not read in a channel since the last login.
#[derive(Clone, Debug, PartialEq, Eq)]
pub struct ReadState {
    /// The id of the channel.
    pub id: ChannelId,
    /// The last message sent, if any.
    pub last_message_id: Option<MessageId>,
    /// When a message was last pinned, if ever.
    pub last_pin_timestamp: Option<String>,
    /// How often the user was mentioned. Where the field is absent, this is 0.
    pub mention_count: u64,
}

/// The model of a read state: what the record holds, as a mathematical value.
pub struct ReadStateModel {
    pub id: ChannelId,
    pub last_message_id: Option<MessageId>,
    pub last_pin_timestamp: Option<Seq<char>>,
    pub mention_count: u64,
}

impl DeepView for ReadState {
    type V = ReadStateModel;

    open spec fn deep_view(&self) -> ReadStateModel {
        ReadStateModel {
            id: self.id.deep_view(),
            last_message_id: self.last_message_id.deep_view(),
            last_pin_timestamp: self.last_pin_timestamp.deep_view(),
            mention_count: self.mention_count.deep_view(),
        }
    }
}

impl ReadState {
    /// What a mapping with the contents `source` gives as a read state: the record put together
    /// from its fields, or the error of the first field, in the order written here, that fails.
    pub open spec fn from_fields(source: Map<Seq<char>, Value>) -> Result<ReadStateModel, Error> {
        let id = required_field::<ChannelId>(source, "id");
        let last_message_id = optional_field::<MessageId>(source, "last_message_id");
        let last_pin_timestamp = optional_field::<String>(source, "last_pin_timestamp");
        let mention_count = optional_field::<u64>(source, "mention_count");
        if id is Err {
            Err(id->Err_0)
        } else if last_message_id is Err {
            Err(last_message_id->Err_0)
        } else if last_pin_timestamp is Err {
            Err(last_pin_timestamp->Err_0)
        } else if mention_count is Err {
            Err(mention_count->Err_0)
        } else {
            Ok(
                ReadStateModel {
                    id: id->Ok_0,
                    last_message_id: last_message_id->Ok_0,
                    last_pin_timestamp: last_pin_timestamp->Ok_0,
                    mention_count: match mention_count->Ok_0 {
                        Some(given) => given,
                        None => 0,
                    },
                },
            )
        }
    }

    /// What tells the field names of a read state apart: their lengths and, among names of one
    /// length, their letters.
    pub proof fn lemma_field_names()
        ensures
            "id"@.len() == 2,
            "last_message_id"@.len() == 15,
            "last_pin_timestamp"@.len() == 18,
            "mention_count"@.len() == 13,
    {
        reveal_strlit("id");
        reveal_strlit("last_message_id");
        reveal_strlit("last_pin_timestamp");
        reveal_strlit("mention_count");
    }

    /// A mapping that holds the required fields of a read state and no other, each with a value
    /// that decodes, is decoded.
    pub proof fn lemma_minimal_decodes(source: Map<Seq<char>, Value>)
        requires
            source.dom() =~= set!["id"@],
            ChannelId::decoded(source["id"@]) is Ok,
        ensures
            ReadState::from_fields(source) is Ok,
    {
        ReadState::lemma_field_names();
    }

    /// Without one of its required fields, a mapping that was decoded as a read state fails,
    /// and the error names exactly the field that is gone.
    pub proof fn lemma_missing_required_field(source: Map<Seq<char>, Value>)
        requires
            ReadState::from_fields(source) is Ok,
        ensures
            fails_with(
                ReadState::from_fields(source.remove("id"@)),
                Error::MissingField("id"),
            ),
    {
        ReadState::lemma_field_names();
    }

    /// A field that a read state does not have changes nothing: it is passed over, whatever it
    /// holds.
    pub proof fn lemma_unknown_field_ignored(
        source: Map<Seq<char>, Value>,
        key: Seq<char>,
        value: Value,
    )
        requires
            key != "id"@,
            key != "last_message_id"@,
            key != "last_pin_timestamp"@,
            key != "mention_count"@,
        ensures
            ReadState::from_fields(source.insert(key, value)) == ReadState::from_fields(source),
    {
    }

    /// An optional field of a read state that is absent is decoded as absent, or as its
    /// default. One that is present with a value of the wrong shape is not taken for absent:
    /// the record fails with that mismatch, which names the field.
    pub proof fn lemma_optional_fields(
        source: Map<Seq<char>, Value>,
        wrong: Value,
        expected: Shape,
    )
        requires
            ReadState::from_fields(source) is Ok,
        ensures
            !source.contains_key("last_message_id"@)
                ==> ReadState::from_fields(source)->Ok_0.last_message_id is None,
            fails_with(MessageId::decoded(wrong), Error::mismatch(expected)) ==> fails_with(
                ReadState::from_fields(source.insert("last_message_id"@, wrong)),
                Error::TypeMismatch(expected, Some("last_message_id")),
            ),
            !source.contains_key("last_pin_timestamp"@)
                ==> ReadState::from_fields(source)->Ok_0.last_pin_timestamp is None,
            fails_with(String::decoded(wrong), Error::mismatch(expected)) ==> fails_with(
                ReadState::from_fields(source.insert("last_pin_timestamp"@, wrong)),
                Error::TypeMismatch(expected, Some("last_pin_timestamp")),
            ),
            !source.contains_key("mention_count"@)
                ==> ReadState::from_fields(source)->Ok_0.mention_count == 0,
            fails_with(u64::decoded(wrong), Error::mismatch(expected)) ==> fails_with(
                ReadState::from_fields(source.insert("mention_count"@, wrong)),
                Error::TypeMismatch(expected, Some("mention_count")),
            ),
    {
        ReadState::lemma_field_names();
    }
}

impl Decode for ReadState {
    open spec fn decoded(value: Value) -> Result<ReadStateModel, Error> {
        match value {
            Value::Mapping(source) => ReadState::from_fields(source@),
            _ => Err(Error::mismatch(Shape::Mapping)),
        }
    }

    fn decode(value: Value) -> (r: Result<ReadState, Error>) {
        let mut source = expect_map(value)?;
        proof {
            ReadState::lemma_field_names();
        }
        let id = required::<ChannelId>(&mut source, "id")?;
        let last_message_id = optional::<MessageId>(&mut source, "last_message_id")?;
        let last_pin_timestamp = optional::<String>(&mut source, "last_pin_timestamp")?;
        let mention_count = optional::<u64>(&mut source, "mention_count")?;
        Ok(
            ReadState {
                id,
                last_message_id,
                last_pin_timestamp,
                mention_count: match mention_count {
                    Some(given) => given,
                    None => 0,
                },
            },
        )
    }
}

impl Keyed for ReadState {
    open spec fn key_of(model: ReadStateModel) -> u64 {
        model.id.0
    }

    fn key(&self) -> (r: u64) {
        self.id.0
    }
}

} // verus!
