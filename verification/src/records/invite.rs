//! Invites.

use crate::access::expect_map;
use crate::codec::Numbered;
use crate::decode::Decode;
use crate::decode::fails_with;
use crate::decode::optional;
use crate::decode::optional_field;
use crate::decode::required;
use crate::decode::required_field;
use crate::error::Error;
use crate::error::Shape;
use crate::ident::ChannelId;
use crate::ident::GuildId;
use crate::kinds::ChannelType;
use crate::records::user::User;
use crate::records::user::UserModel;
use crate::value::Value;
use vstd::prelude::*;

verus! {

/// The little that an invite tells about its channel.
#[derive(Clone, Debug, PartialEq, Eq)]
pub struct InviteChannel {
    /// The id of the channel.
    pub id: ChannelId,
    /// The name of the channel.
    pub name: String,
    /// The kind of the channel. On the wire the field is called `type`.
    pub kind: ChannelType,
}

/// The model of an invite channel: what the record holds, as a mathematical value.
pub struct InviteChannelModel {
    pub id: ChannelId,
    pub name: Seq<char>,
    pub kind: ChannelType,
}

impl DeepView for InviteChannel {
    type V = InviteChannelModel;

    open spec fn deep_view(&self) -> InviteChannelModel {
        InviteChannelModel {
            id: self.id.deep_view(),
            name: self.name.deep_view(),
            kind: self.kind.deep_view(),
        }
    }
}

impl InviteChannel {
    /// What a mapping with the contents `source` gives as an invite channel: the record put
    /// together from its fields, or the error of the first field, in the order written here,
    /// that fails.
    pub open spec fn from_fields(source: Map<Seq<char>, Value>) -> Result<
        InviteChannelModel,
        Error,
    > {
        let id = required_field::<ChannelId>(source, "id");
        let name = required_field::<String>(source, "name");
        let kind = required_field::<Numbered<ChannelType>>(source, "type");
        if id is Err {
            Err(id->Err_0)
        } else if name is Err {
            Err(name->Err_0)
        } else if kind is Err {
            Err(kind->Err_0)
        } else {
            Ok(
                InviteChannelModel {
                    id: id->Ok_0,
                    name: name->Ok_0,
                    kind: kind->Ok_0,
                },
            )
        }
    }

    /// What tells the field names of an invite channel apart: their lengths and, among names of
    /// one length, their letters.
    pub proof fn lemma_field_names()
        ensures
            "id"@.len() == 2,
            "name"@.len() == 4,
            "type"@.len() == 4,
            "name"@[0] == 'n',
            "type"@[0] == 't',
    {
        reveal_strlit("id");
        reveal_strlit("name");
        reveal_strlit("type");
    }

    /// A mapping that holds the required fields of an invite channel and no other, each with a
    /// value that decodes, is decoded.
    pub proof fn lemma_minimal_decodes(source: Map<Seq<char>, Value>)
        requires
            source.dom() =~= set!["id"@, "name"@, "type"@],
            ChannelId::decoded(source["id"@]) is Ok,
            String::decoded(source["name"@]) is Ok,
            <Numbered<ChannelType>>::decoded(source["type"@]) is Ok,
        ensures
            InviteChannel::from_fields(source) is Ok,
    {
        InviteChannel::lemma_field_names();
    }

    /// Without one of its required fields, a mapping that was decoded as an invite channel
    /// fails, and the error names exactly the field that is gone.
    pub proof fn lemma_missing_required_field(source: Map<Seq<char>, Value>)
        requires
            InviteChannel::from_fields(source) is Ok,
        ensures
            fails_with(
                InviteChannel::from_fields(source.remove("id"@)),
                Error::MissingField("id"),
            ),
            fails_with(
                InviteChannel::from_fields(source.remove("name"@)),
                Error::MissingField("name"),
            ),
            fails_with(
                InviteChannel::from_fields(source.remove("type"@)),
                Error::MissingField("type"),
            ),
    {
        InviteChannel::lemma_field_names();
    }

    /// A field that an invite channel does not have changes nothing: it is passed over,
    /// whatever it holds.
    pub proof fn lemma_unknown_field_ignored(
        source: Map<Seq<char>, Value>,
        key: Seq<char>,
        value: Value,
    )
        requires
            key != "id"@,
            key != "name"@,
            key != "type"@,
        ensures
            InviteChannel::from_fields(source.insert(key, value))
                == InviteChannel::from_fields(source),
    {
    }
}

impl Decode for InviteChannel {
    open spec fn decoded(value: Value) -> Result<InviteChannelModel, Error> {
        match value {
            Value::Mapping(source) => InviteChannel::from_fields(source@),
            _ => Err(Error::mismatch(Shape::Mapping)),
        }
    }

    fn decode(value: Value) -> (r: Result<InviteChannel, Error>) {
        let mut source = expect_map(value)?;
        proof {
            InviteChannel::lemma_field_names();
        }
        let id = required::<ChannelId>(&mut source, "id")?;
        let name = required::<String>(&mut source, "name")?;
        let kind = required::<Numbered<ChannelType>>(&mut source, "type")?;
        Ok(
            InviteChannel {
                id,
                name,
                kind: kind.0,
            },
        )
    }
}

/// The little that an invite tells about its guild.
#[derive(Clone, Debug, PartialEq, Eq)]
pub struct InviteGuild {
    /// The id of the guild.
    pub id: GuildId,
    /// The hash of the icon, if one is set.
    pub icon: Option<String>,
    /// The name of the guild.
    pub name: String,
    /// The hash of the splash image, if one is set.
    pub splash_hash: Option<String>,
}

/// The model of an invite guild: what the record holds, as a mathematical value.
pub struct InviteGuildModel {
    pub id: GuildId,
    pub icon: Option<Seq<char>>,
    pub name: Seq<char>,
    pub splash_hash: Option<Seq<char>>,
}

impl DeepView for InviteGuild {
    type V = InviteGuildModel;

    open spec fn deep_view(&self) -> InviteGuildModel {
        InviteGuildModel {
            id: self.id.deep_view(),
            icon: self.icon.deep_view(),
            name: self.name.deep_view(),
            splash_hash: self.splash_hash.deep_view(),
        }
    }
}

impl InviteGuild {
    /// What a mapping with the contents `source` gives as an invite guild: the record put
    /// together from its fields, or the error of the first field, in the order written here,
    /// that fails.
    pub open spec fn from_fields(source: Map<Seq<char>, Value>) -> Result<InviteGuildModel, Error> {
        let id = required_field::<GuildId>(source, "id");
        let icon = optional_field::<String>(source, "icon");
        let name = required_field::<String>(source, "name");
        let splash_hash = optional_field::<String>(source, "splash_hash");
        if id is Err {
            Err(id->Err_0)
        } else if icon is Err {
            Err(icon->Err_0)
        } else if name is Err {
            Err(name->Err_0)
        } else if splash_hash is Err {
            Err(splash_hash->Err_0)
        } else {
            Ok(
                InviteGuildModel {
                    id: id->Ok_0,
                    icon: icon->Ok_0,
                    name: name->Ok_0,
                    splash_hash: splash_hash->Ok_0,
                },
            )
        }
    }

    /// What tells the field names of an invite guild apart: their lengths and, among names of
    /// one length, their letters.
    pub proof fn lemma_field_names()
        ensures
            "id"@.len() == 2,
            "icon"@.len() == 4,
            "name"@.len() == 4,
            "splash_hash"@.len() == 11,
            "icon"@[0] == 'i',
            "name"@[0] == 'n',
    {
        reveal_strlit("id");
        reveal_strlit("icon");
        reveal_strlit("name");
        reveal_strlit("splash_hash");
    }

    /// A mapping that holds the required fields of an invite guild and no other, each with a
    /// value that decodes, is decoded.
    pub proof fn lemma_minimal_decodes(source: Map<Seq<char>, Value>)
        requires
            source.dom() =~= set!["id"@, "name"@],
            GuildId::decoded(source["id"@]) is Ok,
            String::decoded(source["name"@]) is Ok,
        ensures
            InviteGuild::from_fields(source) is Ok,
    {
        InviteGuild::lemma_field_names();
    }

    /// Without one of its required fields, a mapping that was decoded as an invite guild fails,
    /// and the error names exactly the field that is gone.
    pub proof fn lemma_missing_required_field(source: Map<Seq<char>, Value>)
        requires
            InviteGuild::from_fields(source) is Ok,
        ensures
            fails_with(
                InviteGuild::from_fields(source.remove("id"@)),
                Error::MissingField("id"),
            ),
            fails_with(
                InviteGuild::from_fields(source.remove("name"@)),
                Error::MissingField("name"),
            ),
    {
        InviteGuild::lemma_field_names();
    }

    /// A field that an invite guild does not have changes nothing: it is passed over, whatever
    /// it holds.
    pub proof fn lemma_unknown_field_ignored(
        source: Map<Seq<char>, Value>,
        key: Seq<char>,
        value: Value,
    )
        requires
            key != "id"@,
            key != "icon"@,
            key != "name"@,
            key != "splash_hash"@,
        ensures
            InviteGuild::from_fields(source.insert(key, value)) == InviteGuild::from_fields(source),
    {
    }

    /// An optional field of an invite guild that is absent is decoded as absent, or as its
    /// default. One that is present with a value of the wrong shape is not taken for absent:
    /// the record fails with that mismatch, which names the field.
    pub proof fn lemma_optional_fields(
        source: Map<Seq<char>, Value>,
        wrong: Value,
        expected: Shape,
    )
        requires
            InviteGuild::from_fields(source) is Ok,
        ensures
            !source.contains_key("icon"@) ==> InviteGuild::from_fields(source)->Ok_0.icon is None,
            fails_with(String::decoded(wrong), Error::mismatch(expected)) ==> fails_with(
                InviteGuild::from_fields(source.insert("icon"@, wrong)),
                Error::TypeMismatch(expected, Some("icon")),
            ),
            !source.contains_key("splash_hash"@)
                ==> InviteGuild::from_fields(source)->Ok_0.splash_hash is None,
            fails_with(String::decoded(wrong), Error::mismatch(expected)) ==> fails_with(
                InviteGuild::from_fields(source.insert("splash_hash"@, wrong)),
                Error::TypeMismatch(expected, Some("splash_hash")),
            ),
    {
        InviteGuild::lemma_field_names();
    }
}

impl Decode for InviteGuild {
    open spec fn decoded(value: Value) -> Result<InviteGuildModel, Error> {
        match value {
            Value::Mapping(source) => InviteGuild::from_fields(source@),
            _ => Err(Error::mismatch(Shape::Mapping)),
        }
    }

    fn decode(value: Value) -> (r: Result<InviteGuild, Error>) {
        let mut source = expect_map(value)?;
        proof {
            InviteGuild::lemma_field_names();
        }
        let id = required::<GuildId>(&mut source, "id")?;
        let icon = optional::<String>(&mut source, "icon")?;
        let name = required::<String>(&mut source, "name")?;
        let splash_hash = optional::<String>(&mut source, "splash_hash")?;
        Ok(
            InviteGuild {
                id,
                icon,
                name,
                splash_hash,
            },
        )
    }
}

/// An invite to a channel of a guild.
#[derive(Clone, Debug, PartialEq, Eq)]
pub struct Invite {
    /// The code of the invite.
    pub code: String,
    /// The channel that the invite leads to.
    pub channel: InviteChannel,
    /// The guild of that channel.
    pub guild: InviteGuild,
}

/// The model of an invite: what the record holds, as a mathematical value.
pub struct InviteModel {
    pub code: Seq<char>,
    pub channel: InviteChannelModel,
    pub guild: InviteGuildModel,
}

impl DeepView for Invite {
    type V = InviteModel;

    open spec fn deep_view(&self) -> InviteModel {
        InviteModel {
            code: self.code.deep_view(),
            channel: self.channel.deep_view(),
            guild: self.guild.deep_view(),
        }
    }
}

impl Invite {
    /// What a mapping with the contents `source` gives as an invite: the record put together
    /// from its fields, or the error of the first field, in the order written here, that fails.
    pub open spec fn from_fields(source: Map<Seq<char>, Value>) -> Result<InviteModel, Error> {
        let code = required_field::<String>(source, "code");
        let channel = required_field::<InviteChannel>(source, "channel");
        let guild = required_field::<InviteGuild>(source, "guild");
        if code is Err {
            Err(code->Err_0)
        } else if channel is Err {
            Err(channel->Err_0)
        } else if guild is Err {
            Err(guild->Err_0)
        } else {
            Ok(
                InviteModel {
                    code: code->Ok_0,
                    channel: channel->Ok_0,
                    guild: guild->Ok_0,
                },
            )
        }
    }

    /// What tells the field names of an invite apart: their lengths and, among names of one
    /// length, their letters.
    pub proof fn lemma_field_names()
        ensures
            "code"@.len() == 4,
            "channel"@.len() == 7,
            "guild"@.len() == 5,
    {
        reveal_strlit("code");
        reveal_strlit("channel");
        reveal_strlit("guild");
    }

    /// A mapping that holds the required fields of an invite and no other, each with a value
    /// that decodes, is decoded.
    pub proof fn lemma_minimal_decodes(source: Map<Seq<char>, Value>)
        requires
            source.dom() =~= set!["code"@, "channel"@, "guild"@],
            String::decoded(source["code"@]) is Ok,
            InviteChannel::decoded(source["channel"@]) is Ok,
            InviteGuild::decoded(source["guild"@]) is Ok,
        ensures
            Invite::from_fields(source) is Ok,
    {
        Invite::lemma_field_names();
    }

    /// Without one of its required fields, a mapping that was decoded as an invite fails, and
    /// the error names exactly the field that is gone.
    pub proof fn lemma_missing_required_field(source: Map<Seq<char>, Value>)
        requires
            Invite::from_fields(source) is Ok,
        ensures
            fails_with(
                Invite::from_fields(source.remove("code"@)),
                Error::MissingField("code"),
            ),
            fails_with(
                Invite::from_fields(source.remove("channel"@)),
                Error::MissingField("channel"),
            ),
            fails_with(
                Invite::from_fields(source.remove("guild"@)),
                Error::MissingField("guild"),
            ),
    {
        Invite::lemma_field_names();
    }

    /// A field that an invite does not have changes nothing: it is passed over, whatever it
    /// holds.
    pub proof fn lemma_unknown_field_ignored(
        source: Map<Seq<char>, Value>,
        key: Seq<char>,
        value: Value,
    )
        requires
            key != "code"@,
            key != "channel"@,
            key != "guild"@,
        ensures
            Invite::from_fields(source.insert(key, value)) == Invite::from_fields(source),
    {
    }
}

impl Decode for Invite {
    open spec fn decoded(value: Value) -> Result<InviteModel, Error> {
        match value {
            Value::Mapping(source) => Invite::from_fields(source@),
            _ => Err(Error::mismatch(Shape::Mapping)),
        }
    }

    fn decode(value: Value) -> (r: Result<Invite, Error>) {
        let mut source = expect_map(value)?;
        proof {
            Invite::lemma_field_names();
        }
        let code = required::<String>(&mut source, "code")?;
        let channel = required::<InviteChannel>(&mut source, "channel")?;
        let guild = required::<InviteGuild>(&mut source, "guild")?;
        Ok(
            Invite {
                code,
                channel,
                guild,
            },
        )
    }
}

/// An invite with what only the managers of a guild are told about it.
#[derive(Clone, Debug, PartialEq, Eq)]
pub struct RichInvite {
    /// The channel that the invite leads to.
    pub channel: InviteChannel,
    /// The code of the invite.
    pub code: String,
    /// When the invite was made.
    pub created_at: String,
    /// The guild of that channel.
    pub guild: InviteGuild,
    /// The user who made the invite.
    pub inviter: User,
    /// After how many seconds the invite runs out.
    pub max_age: u64,
    /// How often the invite may be used; 0 for no limit.
    pub max_uses: u64,
    /// Whether those who join by the invite are members only for a time.
    pub temporary: bool,
    /// How often the invite has been used.
    pub uses: u64,
}

/// The model of a detailed invite: what the record holds, as a mathematical value.
pub struct RichInviteModel {
    pub channel: InviteChannelModel,
    pub code: Seq<char>,
    pub created_at: Seq<char>,
    pub guild: InviteGuildModel,
    pub inviter: UserModel,
    pub max_age: u64,
    pub max_uses: u64,
    pub temporary: bool,
    pub uses: u64,
}

impl DeepView for RichInvite {
    type V = RichInviteModel;

    open spec fn deep_view(&self) -> RichInviteModel {
        RichInviteModel {
            channel: self.channel.deep_view(),
            code: self.code.deep_view(),
            created_at: self.created_at.deep_view(),
            guild: self.guild.deep_view(),
            inviter: self.inviter.deep_view(),
            max_age: self.max_age.deep_view(),
            max_uses: self.max_uses.deep_view(),
            temporary: self.temporary.deep_view(),
            uses: self.uses.deep_view(),
        }
    }
}

impl RichInvite {
    /// What a mapping with the contents `source` gives as a detailed invite: the record put
    /// together from its fields, or the error of the first field, in the order written here,
    /// that fails.
    pub open spec fn from_fields(source: Map<Seq<char>, Value>) -> Result<RichInviteModel, Error> {
        let channel = required_field::<InviteChannel>(source, "channel");
        let code = required_field::<String>(source, "code");
        let created_at = required_field::<String>(source, "created_at");
        let guild = required_field::<InviteGuild>(source, "guild");
        let inviter = required_field::<User>(source, "inviter");
        let max_age = required_field::<u64>(source, "max_age");
        let max_uses = required_field::<u64>(source, "max_uses");
        let temporary = required_field::<bool>(source, "temporary");
        let uses = required_field::<u64>(source, "uses");
        if channel is Err {
            Err(channel->Err_0)
        } else if code is Err {
            Err(code->Err_0)
        } else if created_at is Err {
            Err(created_at->Err_0)
        } else if guild is Err {
            Err(guild->Err_0)
        } else if inviter is Err {
            Err(inviter->Err_0)
        } else if max_age is Err {
            Err(max_age->Err_0)
        } else if max_uses is Err {
            Err(max_uses->Err_0)
        } else if temporary is Err {
            Err(temporary->Err_0)
        } else if uses is Err {
            Err(uses->Err_0)
        } else {
            Ok(
                RichInviteModel {
                    channel: channel->Ok_0,
                    code: code->Ok_0,
                    created_at: created_at->Ok_0,
                    guild: guild->Ok_0,
                    inviter: inviter->Ok_0,
                    max_age: max_age->Ok_0,
                    max_uses: max_uses->Ok_0,
                    temporary: temporary->Ok_0,
                    uses: uses->Ok_0,
                },
            )
        }
    }

    /// What tells the field names of a detailed invite apart: their lengths and, among names of
    /// one length, their letters.
    pub proof fn lemma_field_names()
        ensures
            "channel"@.len() == 7,
            "code"@.len() == 4,
            "created_at"@.len() == 10,
            "guild"@.len() == 5,
            "inviter"@.len() == 7,
            "max_age"@.len() == 7,
            "max_uses"@.len() == 8,
            "temporary"@.len() == 9,
            "uses"@.len() == 4,
            "code"@[0] == 'c',
            "uses"@[0] == 'u',
            "channel"@[0] == 'c',
            "inviter"@[0] == 'i',
            "max_age"@[0] == 'm',
    {
        reveal_strlit("channel");
        reveal_strlit("code");
        reveal_strlit("created_at");
        reveal_strlit("guild");
        reveal_strlit("inviter");
        reveal_strlit("max_age");
        reveal_strlit("max_uses");
        reveal_strlit("temporary");
        reveal_strlit("uses");
    }

    /// A mapping that holds the required fields of a detailed invite and no other, each with a
    /// value that decodes, is decoded.
    pub proof fn lemma_minimal_decodes(source: Map<Seq<char>, Value>)
        requires
            source.dom() =~= set![
                "channel"@,
                "code"@,
                "created_at"@,
                "guild"@,
                "inviter"@,
                "max_age"@,
                "max_uses"@,
                "temporary"@,
                "uses"@,
            ],
            InviteChannel::decoded(source["channel"@]) is Ok,
            String::decoded(source["code"@]) is Ok,
            String::decoded(source["created_at"@]) is Ok,
            InviteGuild::decoded(source["guild"@]) is Ok,
            User::decoded(source["inviter"@]) is Ok,
            u64::decoded(source["max_age"@]) is Ok,
            u64::decoded(source["max_uses"@]) is Ok,
            bool::decoded(source["temporary"@]) is Ok,
            u64::decoded(source["uses"@]) is Ok,
        ensures
            RichInvite::from_fields(source) is Ok,
    {
        RichInvite::lemma_field_names();
    }

    /// Without one of its required fields, a mapping that was decoded as a detailed invite
    /// fails, and the error names exactly the field that is gone.
    pub proof fn lemma_missing_required_field(source: Map<Seq<char>, Value>)
        requires
            RichInvite::from_fields(source) is Ok,
        ensures
            fails_with(
                RichInvite::from_fields(source.remove("channel"@)),
                Error::MissingField("channel"),
            ),
            fails_with(
                RichInvite::from_fields(source.remove("code"@)),
                Error::MissingField("code"),
            ),
            fails_with(
                RichInvite::from_fields(source.remove("created_at"@)),
                Error::MissingField("created_at"),
            ),
            fails_with(
                RichInvite::from_fields(source.remove("guild"@)),
                Error::MissingField("guild"),
            ),
            fails_with(
                RichInvite::from_fields(source.remove("inviter"@)),
                Error::MissingField("inviter"),
            ),
            fails_with(
                RichInvite::from_fields(source.remove("max_age"@)),
                Error::MissingField("max_age"),
            ),
            fails_with(
                RichInvite::from_fields(source.remove("max_uses"@)),
                Error::MissingField("max_uses"),
            ),
            fails_with(
                RichInvite::from_fields(source.remove("temporary"@)),
                Error::MissingField("temporary"),
            ),
            fails_with(
                RichInvite::from_fields(source.remove("uses"@)),
                Error::MissingField("uses"),
            ),
    {
        RichInvite::lemma_field_names();
    }

    /// A field that a detailed invite does not have changes nothing: it is passed over,
    /// whatever it holds.
    pub proof fn lemma_unknown_field_ignored(
        source: Map<Seq<char>, Value>,
        key: Seq<char>,
        value: Value,
    )
        requires
            key != "channel"@,
            key != "code"@,
            key != "created_at"@,
            key != "guild"@,
            key != "inviter"@,
            key != "max_age"@,
            key != "max_uses"@,
            key != "temporary"@,
            key != "uses"@,
        ensures
            RichInvite::from_fields(source.insert(key, value)) == RichInvite::from_fields(source),
    {
    }
}

impl Decode for RichInvite {
    open spec fn decoded(value: Value) -> Result<RichInviteModel, Error> {
        match value {
            Value::Mapping(source) => RichInvite::from_fields(source@),
            _ => Err(Error::mismatch(Shape::Mapping)),
        }
    }

    fn decode(value: Value) -> (r: Result<RichInvite, Error>) {
        let mut source = expect_map(value)?;
        proof {
            RichInvite::lemma_field_names();
        }
        let channel = required::<InviteChannel>(&mut source, "channel")?;
        let code = required::<String>(&mut source, "code")?;
        let created_at = required::<String>(&mut source, "created_at")?;
        let guild = required::<InviteGuild>(&mut source, "guild")?;
        let inviter = required::<User>(&mut source, "inviter")?;
        let max_age = required::<u64>(&mut source, "max_age")?;
        let max_uses = required::<u64>(&mut source, "max_uses")?;
        let temporary = required::<bool>(&mut source, "temporary")?;
        let uses = required::<u64>(&mut source, "uses")?;
        Ok(
            RichInvite {
                channel,
                code,
                created_at,
                guild,
                inviter,
                max_age,
                max_uses,
                temporary,
                uses,
            },
        )
    }
}

} // verus!
