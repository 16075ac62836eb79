//! Guilds and what belongs to them.

use crate::access::expect_map;
use crate::codec::Named;
use crate::codec::Numbered;
use crate::codec::named_members;
use crate::decode::Decode;
use crate::decode::fails_with;
use crate::decode::optional;
use crate::decode::optional_field;
use crate::decode::required;
use crate::decode::required_field;
use crate::error::Error;
use crate::error::Shape;
use crate::ident::ChannelId;
use crate::ident::EmojiId;
use crate::ident::GuildId;
use crate::ident::IntegrationId;
use crate::ident::RoleId;
use crate::ident::UserId;
use crate::keyed::IdMap;
use crate::keyed::Keyed;
use crate::kinds::Feature;
use crate::kinds::VerificationLevel;
use crate::records::channel::GuildChannel;
use crate::records::channel::GuildChannelModel;
use crate::records::in_guild::guild_channels;
use crate::records::in_guild::guild_channels_field;
use crate::records::in_guild::required_guild_channels;
use crate::records::presence::Presence;
use crate::records::presence::PresenceModel;
use crate::records::user::User;
use crate::records::user::UserModel;
use crate::records::voice::VoiceState;
use crate::records::voice::VoiceStateModel;
use crate::scalar::Colour;
use crate::scalar::Permissions;
use crate::value::Value;
use vstd::prelude::*;

verus! {

/// A role of a guild: a set of permissions that members can hold.
#[derive(Clone, Debug, PartialEq, Eq)]
pub struct Role {
    /// The id of the role.
    pub id: RoleId,
    /// The colour of the role. On the wire the field is called `color`.
    pub colour: Colour,
    /// Whether holders of the role are listed apart from other members.
    pub hoist: bool,
    /// Whether an integration manages the role.
    pub managed: bool,
    /// Whether the role can be mentioned.
    pub mentionable: bool,
    /// The name of the role.
    pub name: String,
    /// The permissions of the role.
    pub permissions: Permissions,
    /// The place of the role in the order of roles.
    pub position: i64,
}

/// The model of a role: what the record holds, as a mathematical value.
pub struct RoleModel {
    pub id: RoleId,
    pub colour: Colour,
    pub hoist: bool,
    pub managed: bool,
    pub mentionable: bool,
    pub name: Seq<char>,
    pub permissions: Permissions,
    pub position: i64,
}

impl DeepView for Role {
    type V = RoleModel;

    open spec fn deep_view(&self) -> RoleModel {
        RoleModel {
            id: self.id.deep_view(),
            colour: self.colour.deep_view(),
            hoist: self.hoist.deep_view(),
            managed: self.managed.deep_view(),
            mentionable: self.mentionable.deep_view(),
            name: self.name.deep_view(),
            permissions: self.permissions.deep_view(),
            position: self.position.deep_view(),
        }
    }
}

impl Role {
    /// What a mapping with the contents `source` gives as a role: the record put together from
    /// its fields, or the error of the first field, in the order written here, that fails.
    pub open spec fn from_fields(source: Map<Seq<char>, Value>) -> Result<RoleModel, Error> {
        let id = required_field::<RoleId>(source, "id");
        let colour = required_field::<Colour>(source, "color");
        let hoist = required_field::<bool>(source, "hoist");
        let managed = required_field::<bool>(source, "managed");
        let mentionable = required_field::<bool>(source, "mentionable");
        let name = required_field::<String>(source, "name");
        let permissions = required_field::<Permissions>(source, "permissions");
        let position = required_field::<i64>(source, "position");
        if id is Err {
            Err(id->Err_0)
        } else if colour is Err {
            Err(colour->Err_0)
        } else if hoist is Err {
            Err(hoist->Err_0)
        } else if managed is Err {
            Err(managed->Err_0)
        } else if mentionable is Err {
            Err(mentionable->Err_0)
        } else if name is Err {
            Err(name->Err_0)
        } else if permissions is Err {
            Err(permissions->Err_0)
        } else if position is Err {
            Err(position->Err_0)
        } else {
            Ok(
                RoleModel {
                    id: id->Ok_0,
                    colour: colour->Ok_0,
                    hoist: hoist->Ok_0,
                    managed: managed->Ok_0,
                    mentionable: mentionable->Ok_0,
                    name: name->Ok_0,
                    permissions: permissions->Ok_0,
                    position: position->Ok_0,
                },
            )
        }
    }

    /// What tells the field names of a role apart: their lengths and, among names of one
    /// length, their letters.
    pub proof fn lemma_field_names()
        ensures
            "id"@.len() == 2,
            "color"@.len() == 5,
            "hoist"@.len() == 5,
            "managed"@.len() == 7,
            "mentionable"@.len() == 11,
            "name"@.len() == 4,
            "permissions"@.len() == 11,
            "position"@.len() == 8,
            "color"@[0] == 'c',
            "hoist"@[0] == 'h',
            "mentionable"@[0] == 'm',
            "permissions"@[0] == 'p',
    {
        reveal_strlit("id");
        reveal_strlit("color");
        reveal_strlit("hoist");
        reveal_strlit("managed");
        reveal_strlit("mentionable");
        reveal_strlit("name");
        reveal_strlit("permissions");
        reveal_strlit("position");
    }

    /// A mapping that holds the required fields of a role and no other, each with a value that
    /// decodes, is decoded.
    pub proof fn lemma_minimal_decodes(source: Map<Seq<char>, Value>)
        requires
            source.dom() =~= set![
                "id"@,
                "color"@,
                "hoist"@,
                "managed"@,
                "mentionable"@,
                "name"@,
                "permissions"@,
                "position"@,
            ],
            RoleId::decoded(source["id"@]) is Ok,
            Colour::decoded(source["color"@]) is Ok,
            bool::decoded(source["hoist"@]) is Ok,
            bool::decoded(source["managed"@]) is Ok,
            bool::decoded(source["mentionable"@]) is Ok,
            String::decoded(source["name"@]) is Ok,
            Permissions::decoded(source["permissions"@]) is Ok,
            i64::decoded(source["position"@]) is Ok,
        ensures
            Role::from_fields(source) is Ok,
    {
        Role::lemma_field_names();
    }

    /// Without one of its required fields, a mapping that was decoded as a role fails, and the
    /// error names exactly the field that is gone.
    pub proof fn lemma_missing_required_field(source: Map<Seq<char>, Value>)
        requires
            Role::from_fields(source) is Ok,
        ensures
            fails_with(
                Role::from_fields(source.remove("id"@)),
                Error::MissingField("id"),
            ),
            fails_with(
                Role::from_fields(source.remove("color"@)),
                Error::MissingField("color"),
            ),
            fails_with(
                Role::from_fields(source.remove("hoist"@)),
                Error::MissingField("hoist"),
            ),
            fails_with(
                Role::from_fields(source.remove("managed"@)),
                Error::MissingField("managed"),
            ),
            fails_with(
                Role::from_fields(source.remove("mentionable"@)),
                Error::MissingField("mentionable"),
            ),
            fails_with(
                Role::from_fields(source.remove("name"@)),
                Error::MissingField("name"),
            ),
            fails_with(
                Role::from_fields(source.remove("permissions"@)),
                Error::MissingField("permissions"),
            ),
            fails_with(
                Role::from_fields(source.remove("position"@)),
                Error::MissingField("position"),
            ),
    {
        Role::lemma_field_names();
    }

    /// A field that a role does not have changes nothing: it is passed over, whatever it holds.
    pub proof fn lemma_unknown_field_ignored(
        source: Map<Seq<char>, Value>,
        key: Seq<char>,
        value: Value,
    )
        requires
            key != "id"@,
            key != "color"@,
            key != "hoist"@,
            key != "managed"@,
            key != "mentionable"@,
            key != "name"@,
            key != "permissions"@,
            key != "position"@,
        ensures
            Role::from_fields(source.insert(key, value)) == Role::from_fields(source),
    {
    }
}

impl Decode for Role {
    open spec fn decoded(value: Value) -> Result<RoleModel, Error> {
        match value {
            Value::Mapping(source) => Role::from_fields(source@),
            _ => Err(Error::mismatch(Shape::Mapping)),
        }
    }

    fn decode(value: Value) -> (r: Result<Role, Error>) {
        let mut source = expect_map(value)?;
        proof {
            Role::lemma_field_names();
        }
        let id = required::<RoleId>(&mut source, "id")?;
        let colour = required::<Colour>(&mut source, "color")?;
        let hoist = required::<bool>(&mut source, "hoist")?;
        let managed = required::<bool>(&mut source, "managed")?;
        let mentionable = required::<bool>(&mut source, "mentionable")?;
        let name = required::<String>(&mut source, "name")?;
        let permissions = required::<Permissions>(&mut source, "permissions")?;
        let position = required::<i64>(&mut source, "position")?;
        Ok(
            Role {
                id,
                colour,
                hoist,
                managed,
                mentionable,
                name,
                permissions,
                position,
            },
        )
    }
}

impl Keyed for Role {
    open spec fn key_of(model: RoleModel) -> u64 {
        model.id.0
    }

    fn key(&self) -> (r: u64) {
        self.id.0
    }
}

/// A custom emoji of a guild.
#[derive(Clone, Debug, PartialEq, Eq)]
pub struct Emoji {
    /// The id of the emoji.
    pub id: EmojiId,
    /// The name of the emoji.
    pub name: String,
    /// Whether an integration manages the emoji.
    pub managed: bool,
    /// Whether the name must stand between colons to be used.
    pub require_colons: bool,
    /// The roles that may use the emoji; anyone may where there are none.
    pub roles: Vec<RoleId>,
}

/// The model of an emoji: what the record holds, as a mathematical value.
pub struct EmojiModel {
    pub id: EmojiId,
    pub name: Seq<char>,
    pub managed: bool,
    pub require_colons: bool,
    pub roles: Seq<RoleId>,
}

impl DeepView for Emoji {
    type V = EmojiModel;

    open spec fn deep_view(&self) -> EmojiModel {
        EmojiModel {
            id: self.id.deep_view(),
            name: self.name.deep_view(),
            managed: self.managed.deep_view(),
            require_colons: self.require_colons.deep_view(),
            roles: self.roles.deep_view(),
        }
    }
}

impl Emoji {
    /// What a mapping with the contents `source` gives as an emoji: the record put together
    /// from its fields, or the error of the first field, in the order written here, that fails.
    pub open spec fn from_fields(source: Map<Seq<char>, Value>) -> Result<EmojiModel, Error> {
        let id = required_field::<EmojiId>(source, "id");
        let name = required_field::<String>(source, "name");
        let managed = required_field::<bool>(source, "managed");
        let require_colons = required_field::<bool>(source, "require_colons");
        let roles = required_field::<Vec<RoleId>>(source, "roles");
        if id is Err {
            Err(id->Err_0)
        } else if name is Err {
            Err(name->Err_0)
        } else if managed is Err {
            Err(managed->Err_0)
        } else if require_colons is Err {
            Err(require_colons->Err_0)
        } else if roles is Err {
            Err(roles->Err_0)
        } else {
            Ok(
                EmojiModel {
                    id: id->Ok_0,
                    name: name->Ok_0,
                    managed: managed->Ok_0,
                    require_colons: require_colons->Ok_0,
                    roles: roles->Ok_0,
                },
            )
        }
    }

    /// What tells the field names of an emoji apart: their lengths and, among names of one
    /// length, their letters.
    pub proof fn lemma_field_names()
        ensures
            "id"@.len() == 2,
            "name"@.len() == 4,
            "managed"@.len() == 7,
            "require_colons"@.len() == 14,
            "roles"@.len() == 5,
    {
        reveal_strlit("id");
        reveal_strlit("name");
        reveal_strlit("managed");
        reveal_strlit("require_colons");
        reveal_strlit("roles");
    }

    /// A mapping that holds the required fields of an emoji and no other, each with a value
    /// that decodes, is decoded.
    pub proof fn lemma_minimal_decodes(source: Map<Seq<char>, Value>)
        requires
            source.dom() =~= set!["id"@, "name"@, "managed"@, "require_colons"@, "roles"@],
            EmojiId::decoded(source["id"@]) is Ok,
            String::decoded(source["name"@]) is Ok,
            bool::decoded(source["managed"@]) is Ok,
            bool::decoded(source["require_colons"@]) is Ok,
            <Vec<RoleId>>::decoded(source["roles"@]) is Ok,
        ensures
            Emoji::from_fields(source) is Ok,
    {
        Emoji::lemma_field_names();
    }

    /// Without one of its required fields, a mapping that was decoded as an emoji fails, and
    /// the error names exactly the field that is gone.
    pub proof fn lemma_missing_required_field(source: Map<Seq<char>, Value>)
        requires
            Emoji::from_fields(source) is Ok,
        ensures
            fails_with(
                Emoji::from_fields(source.remove("id"@)),
                Error::MissingField("id"),
            ),
            fails_with(
                Emoji::from_fields(source.remove("name"@)),
                Error::MissingField("name"),
            ),
            fails_with(
                Emoji::from_fields(source.remove("managed"@)),
                Error::MissingField("managed"),
            ),
            fails_with(
                Emoji::from_fields(source.remove("require_colons"@)),
                Error::MissingField("require_colons"),
            ),
            fails_with(
                Emoji::from_fields(source.remove("roles"@)),
                Error::MissingField("roles"),
            ),
    {
        Emoji::lemma_field_names();
    }

    /// A field that an emoji does not have changes nothing: it is passed over, whatever it
    /// holds.
    pub proof fn lemma_unknown_field_ignored(
        source: Map<Seq<char>, Value>,
        key: Seq<char>,
        value: Value,
    )
        requires
            key != "id"@,
            key != "name"@,
            key != "managed"@,
            key != "require_colons"@,
            key != "roles"@,
        ensures
            Emoji::from_fields(source.insert(key, value)) == Emoji::from_fields(source),
    {
    }
}

impl Decode for Emoji {
    open spec fn decoded(value: Value) -> Result<EmojiModel, Error> {
        match value {
            Value::Mapping(source) => Emoji::from_fields(source@),
            _ => Err(Error::mismatch(Shape::Mapping)),
        }
    }

    fn decode(value: Value) -> (r: Result<Emoji, Error>) {
        let mut source = expect_map(value)?;
        proof {
            Emoji::lemma_field_names();
        }
        let id = required::<EmojiId>(&mut source, "id")?;
        let name = required::<String>(&mut source, "name")?;
        let managed = required::<bool>(&mut source, "managed")?;
        let require_colons = required::<bool>(&mut source, "require_colons")?;
        let roles = required::<Vec<RoleId>>(&mut source, "roles")?;
        Ok(
            Emoji {
                id,
                name,
                managed,
                require_colons,
                roles,
            },
        )
    }
}

impl Keyed for Emoji {
    open spec fn key_of(model: EmojiModel) -> u64 {
        model.id.0
    }

    fn key(&self) -> (r: u64) {
        self.id.0
    }
}

/// A custom emoji by its id and its name alone.
#[derive(Clone, Debug, PartialEq, Eq)]
pub struct EmojiIdentifier {
    /// The id of the emoji.
    pub id: EmojiId,
    /// The name of the emoji.
    pub name: String,
}

/// The model of an emoji identifier: what the record holds, as a mathematical value.
pub struct EmojiIdentifierModel {
    pub id: EmojiId,
    pub name: Seq<char>,
}

impl DeepView for EmojiIdentifier {
    type V = EmojiIdentifierModel;

    open spec fn deep_view(&self) -> EmojiIdentifierModel {
        EmojiIdentifierModel {
            id: self.id.deep_view(),
            name: self.name.deep_view(),
        }
    }
}

impl EmojiIdentifier {
    /// What a mapping with the contents `source` gives as an emoji identifier: the record put
    /// together from its fields, or the error of the first field, in the order written here,
    /// that fails.
    pub open spec fn from_fields(source: Map<Seq<char>, Value>) -> Result<
        EmojiIdentifierModel,
        Error,
    > {
        let id = required_field::<EmojiId>(source, "id");
        let name = required_field::<String>(source, "name");
        if id is Err {
            Err(id->Err_0)
        } else if name is Err {
            Err(name->Err_0)
        } else {
            Ok(
                EmojiIdentifierModel {
                    id: id->Ok_0,
                    name: name->Ok_0,
                },
            )
        }
    }

    /// What tells the field names of an emoji identifier apart: their lengths and, among names
    /// of one length, their letters.
    pub proof fn lemma_field_names()
        ensures
            "id"@.len() == 2,
            "name"@.len() == 4,
    {
        reveal_strlit("id");
        reveal_strlit("name");
    }

    /// A mapping that holds the required fields of an emoji identifier and no other, each with
    /// a value that decodes, is decoded.
    pub proof fn lemma_minimal_decodes(source: Map<Seq<char>, Value>)
        requires
            source.dom() =~= set!["id"@, "name"@],
            EmojiId::decoded(source["id"@]) is Ok,
            String::decoded(source["name"@]) is Ok,
        ensures
            EmojiIdentifier::from_fields(source) is Ok,
    {
        EmojiIdentifier::lemma_field_names();
    }

    /// Without one of its required fields, a mapping that was decoded as an emoji identifier
    /// fails, and the error names exactly the field that is gone.
    pub proof fn lemma_missing_required_field(source: Map<Seq<char>, Value>)
        requires
            EmojiIdentifier::from_fields(source) is Ok,
        ensures
            fails_with(
                EmojiIdentifier::from_fields(source.remove("id"@)),
                Error::MissingField("id"),
            ),
            fails_with(
                EmojiIdentifier::from_fields(source.remove("name"@)),
                Error::MissingField("name"),
            ),
    {
        EmojiIdentifier::lemma_field_names();
    }

    /// A field that an emoji identifier does not have changes nothing: it is passed over,
    /// whatever it holds.
    pub proof fn lemma_unknown_field_ignored(
        source: Map<Seq<char>, Value>,
        key: Seq<char>,
        value: Value,
    )
        requires
            key != "id"@,
            key != "name"@,
        ensures
            EmojiIdentifier::from_fields(source.insert(key, value))
                == EmojiIdentifier::from_fields(source),
    {
    }
}

impl Decode for EmojiIdentifier {
    open spec fn decoded(value: Value) -> Result<EmojiIdentifierModel, Error> {
        match value {
            Value::Mapping(source) => EmojiIdentifier::from_fields(source@),
            _ => Err(Error::mismatch(Shape::Mapping)),
        }
    }

    fn decode(value: Value) -> (r: Result<EmojiIdentifier, Error>) {
        let mut source = expect_map(value)?;
        proof {
            EmojiIdentifier::lemma_field_names();
        }
        let id = required::<EmojiId>(&mut source, "id")?;
        let name = required::<String>(&mut source, "name")?;
        Ok(
            EmojiIdentifier {
                id,
                name,
            },
        )
    }
}

/// A member of a guild.
#[derive(Clone, Debug, PartialEq, Eq)]
pub struct Member {
    /// Whether the guild has deafened the member.
    pub deaf: bool,
    /// When the member joined the guild.
    pub joined_at: String,
    /// Whether the guild has muted the member.
    pub mute: bool,
    /// The nickname of the member in the guild, if one is set.
    pub nick: Option<String>,
    /// The roles that the member holds.
    pub roles: Vec<RoleId>,
    /// The user that the member is.
    pub user: User,
}

/// The model of a member: what the record holds, as a mathematical value.
pub struct MemberModel {
    pub deaf: bool,
    pub joined_at: Seq<char>,
    pub mute: bool,
    pub nick: Option<Seq<char>>,
    pub roles: Seq<RoleId>,
    pub user: UserModel,
}

impl DeepView for Member {
    type V = MemberModel;

    open spec fn deep_view(&self) -> MemberModel {
        MemberModel {
            deaf: self.deaf.deep_view(),
            joined_at: self.joined_at.deep_view(),
            mute: self.mute.deep_view(),
            nick: self.nick.deep_view(),
            roles: self.roles.deep_view(),
            user: self.user.deep_view(),
        }
    }
}

impl Member {
    /// What a mapping with the contents `source` gives as a member: the record put together
    /// from its fields, or the error of the first field, in the order written here, that fails.
    pub open spec fn from_fields(source: Map<Seq<char>, Value>) -> Result<MemberModel, Error> {
        let deaf = required_field::<bool>(source, "deaf");
        let joined_at = required_field::<String>(source, "joined_at");
        let mute = required_field::<bool>(source, "mute");
        let nick = optional_field::<String>(source, "nick");
        let roles = required_field::<Vec<RoleId>>(source, "roles");
        let user = required_field::<User>(source, "user");
        if deaf is Err {
            Err(deaf->Err_0)
        } else if joined_at is Err {
            Err(joined_at->Err_0)
        } else if mute is Err {
            Err(mute->Err_0)
        } else if nick is Err {
            Err(nick->Err_0)
        } else if roles is Err {
            Err(roles->Err_0)
        } else if user is Err {
            Err(user->Err_0)
        } else {
            Ok(
                MemberModel {
                    deaf: deaf->Ok_0,
                    joined_at: joined_at->Ok_0,
                    mute: mute->Ok_0,
                    nick: nick->Ok_0,
                    roles: roles->Ok_0,
                    user: user->Ok_0,
                },
            )
        }
    }

    /// What tells the field names of a member apart: their lengths and, among names of one
    /// length, their letters.
    pub proof fn lemma_field_names()
        ensures
            "deaf"@.len() == 4,
            "joined_at"@.len() == 9,
            "mute"@.len() == 4,
            "nick"@.len() == 4,
            "roles"@.len() == 5,
            "user"@.len() == 4,
            "deaf"@[0] == 'd',
            "mute"@[0] == 'm',
            "nick"@[0] == 'n',
            "user"@[0] == 'u',
    {
        reveal_strlit("deaf");
        reveal_strlit("joined_at");
        reveal_strlit("mute");
        reveal_strlit("nick");
        reveal_strlit("roles");
        reveal_strlit("user");
    }

    /// A mapping that holds the required fields of a member and no other, each with a value
    /// that decodes, is decoded.
    pub proof fn lemma_minimal_decodes(source: Map<Seq<char>, Value>)
        requires
            source.dom() =~= set!["deaf"@, "joined_at"@, "mute"@, "roles"@, "user"@],
            bool::decoded(source["deaf"@]) is Ok,
            String::decoded(source["joined_at"@]) is Ok,
            bool::decoded(source["mute"@]) is Ok,
            <Vec<RoleId>>::decoded(source["roles"@]) is Ok,
            User::decoded(source["user"@]) is Ok,
        ensures
            Member::from_fields(source) is Ok,
    {
        Member::lemma_field_names();
    }

    /// Without one of its required fields, a mapping that was decoded as a member fails, and
    /// the error names exactly the field that is gone.
    pub proof fn lemma_missing_required_field(source: Map<Seq<char>, Value>)
        requires
            Member::from_fields(source) is Ok,
        ensures
            fails_with(
                Member::from_fields(source.remove("deaf"@)),
                Error::MissingField("deaf"),
            ),
            fails_with(
                Member::from_fields(source.remove("joined_at"@)),
                Error::MissingField("joined_at"),
            ),
            fails_with(
                Member::from_fields(source.remove("mute"@)),
                Error::MissingField("mute"),
            ),
            fails_with(
                Member::from_fields(source.remove("roles"@)),
                Error::MissingField("roles"),
            ),
            fails_with(
                Member::from_fields(source.remove("user"@)),
                Error::MissingField("user"),
            ),
    {
        Member::lemma_field_names();
    }

    /// A field that a member does not have changes nothing: it is passed over, whatever it
    /// holds.
    pub proof fn lemma_unknown_field_ignored(
        source: Map<Seq<char>, Value>,
        key: Seq<char>,
        value: Value,
    )
        requires
            key != "deaf"@,
            key != "joined_at"@,
            key != "mute"@,
            key != "nick"@,
            key != "roles"@,
            key != "user"@,
        ensures
            Member::from_fields(source.insert(key, value)) == Member::from_fields(source),
    {
    }

    /// An optional field of a member that is absent is decoded as absent, or as its default.
    /// One that is present with a value of the wrong shape is not taken for absent: the record
    /// fails with that mismatch, which names the field.
    pub proof fn lemma_optional_fields(
        source: Map<Seq<char>, Value>,
        wrong: Value,
        expected: Shape,
    )
        requires
            Member::from_fields(source) is Ok,
        ensures
            !source.contains_key("nick"@) ==> Member::from_fields(source)->Ok_0.nick is None,
            fails_with(String::decoded(wrong), Error::mismatch(expected)) ==> fails_with(
                Member::from_fields(source.insert("nick"@, wrong)),
                Error::TypeMismatch(expected, Some("nick")),
            ),
    {
        Member::lemma_field_names();
    }
}

impl Decode for Member {
    open spec fn decoded(value: Value) -> Result<MemberModel, Error> {
        match value {
            Value::Mapping(source) => Member::from_fields(source@),
            _ => Err(Error::mismatch(Shape::Mapping)),
        }
    }

    fn decode(value: Value) -> (r: Result<Member, Error>) {
        let mut source = expect_map(value)?;
        proof {
            Member::lemma_field_names();
        }
        let deaf = required::<bool>(&mut source, "deaf")?;
        let joined_at = required::<String>(&mut source, "joined_at")?;
        let mute = required::<bool>(&mut source, "mute")?;
        let nick = optional::<String>(&mut source, "nick")?;
        let roles = required::<Vec<RoleId>>(&mut source, "roles")?;
        let user = required::<User>(&mut source, "user")?;
        Ok(
            Member {
                deaf,
                joined_at,
                mute,
                nick,
                roles,
                user,
            },
        )
    }
}

impl Keyed for Member {
    open spec fn key_of(model: MemberModel) -> u64 {
        model.user.id.0
    }

    fn key(&self) -> (r: u64) {
        self.user.id.0
    }
}

/// A ban of a user from a guild.
#[derive(Clone, Debug, PartialEq, Eq)]
pub struct Ban {
    /// The reason given for the ban, if any.
    pub reason: Option<String>,
    /// The user who was banned.
    pub user: User,
}

/// The model of a ban: what the record holds, as a mathematical value.
pub struct BanModel {
    pub reason: Option<Seq<char>>,
    pub user: UserModel,
}

impl DeepView for Ban {
    type V = BanModel;

    open spec fn deep_view(&self) -> BanModel {
        BanModel {
            reason: self.reason.deep_view(),
            user: self.user.deep_view(),
        }
    }
}

impl Ban {
    /// What a mapping with the contents `source` gives as a ban: the record put together from
    /// its fields, or the error of the first field, in the order written here, that fails.
    pub open spec fn from_fields(source: Map<Seq<char>, Value>) -> Result<BanModel, Error> {
        let reason = optional_field::<String>(source, "reason");
        let user = required_field::<User>(source, "user");
        if reason is Err {
            Err(reason->Err_0)
        } else if user is Err {
            Err(user->Err_0)
        } else {
            Ok(
                BanModel {
                    reason: reason->Ok_0,
                    user: user->Ok_0,
                },
            )
        }
    }

    /// What tells the field names of a ban apart: their lengths and, among names of one length,
    /// their letters.
    pub proof fn lemma_field_names()
        ensures
            "reason"@.len() == 6,
            "user"@.len() == 4,
    {
        reveal_strlit("reason");
        reveal_strlit("user");
    }

    /// A mapping that holds the required fields of a ban and no other, each with a value that
    /// decodes, is decoded.
    pub proof fn lemma_minimal_decodes(source: Map<Seq<char>, Value>)
        requires
            source.dom() =~= set!["user"@],
            User::decoded(source["user"@]) is Ok,
        ensures
            Ban::from_fields(source) is Ok,
    {
        Ban::lemma_field_names();
    }

    /// Without one of its required fields, a mapping that was decoded as a ban fails, and the
    /// error names exactly the field that is gone.
    pub proof fn lemma_missing_required_field(source: Map<Seq<char>, Value>)
        requires
            Ban::from_fields(source) is Ok,
        ensures
            fails_with(
                Ban::from_fields(source.remove("user"@)),
                Error::MissingField("user"),
            ),
    {
        Ban::lemma_field_names();
    }

    /// A field that a ban does not have changes nothing: it is passed over, whatever it holds.
    pub proof fn lemma_unknown_field_ignored(
        source: Map<Seq<char>, Value>,
        key: Seq<char>,
        value: Value,
    )
        requires
            key != "reason"@,
            key != "user"@,
        ensures
            Ban::from_fields(source.insert(key, value)) == Ban::from_fields(source),
    {
    }

    /// An optional field of a ban that is absent is decoded as absent, or as its default. One
    /// that is present with a value of the wrong shape is not taken for absent: the record
    /// fails with that mismatch, which names the field.
    pub proof fn lemma_optional_fields(
        source: Map<Seq<char>, Value>,
        wrong: Value,
        expected: Shape,
    )
        requires
            Ban::from_fields(source) is Ok,
        ensures
            !source.contains_key("reason"@) ==> Ban::from_fields(source)->Ok_0.reason is None,
            fails_with(String::decoded(wrong), Error::mismatch(expected)) ==> fails_with(
                Ban::from_fields(source.insert("reason"@, wrong)),
                Error::TypeMismatch(expected, Some("reason")),
            ),
    {
        Ban::lemma_field_names();
    }
}

impl Decode for Ban {
    open spec fn decoded(value: Value) -> Result<BanModel, Error> {
        match value {
            Value::Mapping(source) => Ban::from_fields(source@),
            _ => Err(Error::mismatch(Shape::Mapping)),
        }
    }

    fn decode(value: Value) -> (r: Result<Ban, Error>) {
        let mut source = expect_map(value)?;
        proof {
            Ban::lemma_field_names();
        }
        let reason = optional::<String>(&mut source, "reason")?;
        let user = required::<User>(&mut source, "user")?;
        Ok(
            Ban {
                reason,
                user,
            },
        )
    }
}

/// The account on the other side of an integration.
#[derive(Clone, Debug, PartialEq, Eq)]
pub struct IntegrationAccount {
    /// The id of the account.
    pub id: String,
    /// The name of the account.
    pub name: String,
}

/// The model of an integration account: what the record holds, as a mathematical value.
pub struct IntegrationAccountModel {
    pub id: Seq<char>,
    pub name: Seq<char>,
}

impl DeepView for IntegrationAccount {
    type V = IntegrationAccountModel;

    open spec fn deep_view(&self) -> IntegrationAccountModel {
        IntegrationAccountModel {
            id: self.id.deep_view(),
            name: self.name.deep_view(),
        }
    }
}

impl IntegrationAccount {
    /// What a mapping with the contents `source` gives as an integration account: the record
    /// put together from its fields, or the error of the first field, in the order written
    /// here, that fails.
    pub open spec fn from_fields(source: Map<Seq<char>, Value>) -> Result<
        IntegrationAccountModel,
        Error,
    > {
        let id = required_field::<String>(source, "id");
        let name = required_field::<String>(source, "name");
        if id is Err {
            Err(id->Err_0)
        } else if name is Err {
            Err(name->Err_0)
        } else {
            Ok(
                IntegrationAccountModel {
                    id: id->Ok_0,
                    name: name->Ok_0,
                },
            )
        }
    }

    /// What tells the field names of an integration account apart: their lengths and, among
    /// names of one length, their letters.
    pub proof fn lemma_field_names()
        ensures
            "id"@.len() == 2,
            "name"@.len() == 4,
    {
        reveal_strlit("id");
        reveal_strlit("name");
    }

    /// A mapping that holds the required fields of an integration account and no other, each
    /// with a value that decodes, is decoded.
    pub proof fn lemma_minimal_decodes(source: Map<Seq<char>, Value>)
        requires
            source.dom() =~= set!["id"@, "name"@],
            String::decoded(source["id"@]) is Ok,
            String::decoded(source["name"@]) is Ok,
        ensures
            IntegrationAccount::from_fields(source) is Ok,
    {
        IntegrationAccount::lemma_field_names();
    }

    /// Without one of its required fields, a mapping that was decoded as an integration account
    /// fails, and the error names exactly the field that is gone.
    pub proof fn lemma_missing_required_field(source: Map<Seq<char>, Value>)
        requires
            IntegrationAccount::from_fields(source) is Ok,
        ensures
            fails_with(
                IntegrationAccount::from_fields(source.remove("id"@)),
                Error::MissingField("id"),
            ),
            fails_with(
                IntegrationAccount::from_fields(source.remove("name"@)),
                Error::MissingField("name"),
            ),
    {
        IntegrationAccount::lemma_field_names();
    }

    /// A field that an integration account does not have changes nothing: it is passed over,
    /// whatever it holds.
    pub proof fn lemma_unknown_field_ignored(
        source: Map<Seq<char>, Value>,
        key: Seq<char>,
        value: Value,
    )
        requires
            key != "id"@,
            key != "name"@,
        ensures
            IntegrationAccount::from_fields(source.insert(key, value))
                == IntegrationAccount::from_fields(source),
    {
    }
}

impl Decode for IntegrationAccount {
    open spec fn decoded(value: Value) -> Result<IntegrationAccountModel, Error> {
        match value {
            Value::Mapping(source) => IntegrationAccount::from_fields(source@),
            _ => Err(Error::mismatch(Shape::Mapping)),
        }
    }

    fn decode(value: Value) -> (r: Result<IntegrationAccount, Error>) {
        let mut source = expect_map(value)?;
        proof {
            IntegrationAccount::lemma_field_names();
        }
        let id = required::<String>(&mut source, "id")?;
        let name = required::<String>(&mut source, "name")?;
        Ok(
            IntegrationAccount {
                id,
                name,
            },
        )
    }
}

/// An integration of a guild with another service.
#[derive(Clone, Debug, PartialEq, Eq)]
pub struct Integration {
    /// The id of the integration.
    pub id: IntegrationId,
    /// The account on the other service.
    pub account: IntegrationAccount,
    /// Whether the integration is enabled.
    pub enabled: bool,
    /// What happens to a member whose subscription runs out.
    pub expire_behavior: u64,
    /// How many days a subscription may lapse.
    pub expire_grace_period: u64,
    /// The kind of service.
    pub kind: String,
    /// The name of the integration.
    pub name: String,
    /// The role that subscribers are given.
    pub role_id: RoleId,
    /// When the integration was last synchronised.
    pub synced_at: u64,
    /// Whether the integration is being synchronised.
    pub syncing: bool,
    /// The user who set up the integration.
    pub user: User,
}

/// The model of an integration: what the record holds, as a mathematical value.
pub struct IntegrationModel {
    pub id: IntegrationId,
    pub account: IntegrationAccountModel,
    pub enabled: bool,
    pub expire_behavior: u64,
    pub expire_grace_period: u64,
    pub kind: Seq<char>,
    pub name: Seq<char>,
    pub role_id: RoleId,
    pub synced_at: u64,
    pub syncing: bool,
    pub user: UserModel,
}

impl DeepView for Integration {
    type V = IntegrationModel;

    open spec fn deep_view(&self) -> IntegrationModel {
        IntegrationModel {
            id: self.id.deep_view(),
            account: self.account.deep_view(),
            enabled: self.enabled.deep_view(),
            expire_behavior: self.expire_behavior.deep_view(),
            expire_grace_period: self.expire_grace_period.deep_view(),
            kind: self.kind.deep_view(),
            name: self.name.deep_view(),
            role_id: self.role_id.deep_view(),
            synced_at: self.synced_at.deep_view(),
            syncing: self.syncing.deep_view(),
            user: self.user.deep_view(),
        }
    }
}

impl Integration {
    /// What a mapping with the contents `source` gives as an integration: the record put
    /// together from its fields, or the error of the first field, in the order written here,
    /// that fails.
    pub open spec fn from_fields(source: Map<Seq<char>, Value>) -> Result<IntegrationModel, Error> {
        let id = required_field::<IntegrationId>(source, "id");
        let account = required_field::<IntegrationAccount>(source, "account");
        let enabled = required_field::<bool>(source, "enabled");
        let expire_behavior = required_field::<u64>(source, "expire_behavior");
        let expire_grace_period = required_field::<u64>(source, "expire_grace_period");
        let kind = required_field::<String>(source, "kind");
        let name = required_field::<String>(source, "name");
        let role_id = required_field::<RoleId>(source, "role_id");
        let synced_at = required_field::<u64>(source, "synced_at");
        let syncing = required_field::<bool>(source, "syncing");
        let user = required_field::<User>(source, "user");
        if id is Err {
            Err(id->Err_0)
        } else if account is Err {
            Err(account->Err_0)
        } else if enabled is Err {
            Err(enabled->Err_0)
        } else if expire_behavior is Err {
            Err(expire_behavior->Err_0)
        } else if expire_grace_period is Err {
            Err(expire_grace_period->Err_0)
        } else if kind is Err {
            Err(kind->Err_0)
        } else if name is Err {
            Err(name->Err_0)
        } else if role_id is Err {
            Err(role_id->Err_0)
        } else if synced_at is Err {
            Err(synced_at->Err_0)
        } else if syncing is Err {
            Err(syncing->Err_0)
        } else if user is Err {
            Err(user->Err_0)
        } else {
            Ok(
                IntegrationModel {
                    id: id->Ok_0,
                    account: account->Ok_0,
                    enabled: enabled->Ok_0,
                    expire_behavior: expire_behavior->Ok_0,
                    expire_grace_period: expire_grace_period->Ok_0,
                    kind: kind->Ok_0,
                    name: name->Ok_0,
                    role_id: role_id->Ok_0,
                    synced_at: synced_at->Ok_0,
                    syncing: syncing->Ok_0,
                    user: user->Ok_0,
                },
            )
        }
    }

    /// What tells the field names of an integration apart: their lengths and, among names of
    /// one length, their letters.
    pub proof fn lemma_field_names()
        ensures
            "id"@.len() == 2,
            "account"@.len() == 7,
            "enabled"@.len() == 7,
            "expire_behavior"@.len() == 15,
            "expire_grace_period"@.len() == 19,
            "kind"@.len() == 4,
            "name"@.len() == 4,
            "role_id"@.len() == 7,
            "synced_at"@.len() == 9,
            "syncing"@.len() == 7,
            "user"@.len() == 4,
            "kind"@[0] == 'k',
            "name"@[0] == 'n',
            "user"@[0] == 'u',
            "account"@[0] == 'a',
            "enabled"@[0] == 'e',
            "role_id"@[0] == 'r',
            "syncing"@[0] == 's',
    {
        reveal_strlit("id");
        reveal_strlit("account");
        reveal_strlit("enabled");
        reveal_strlit("expire_behavior");
        reveal_strlit("expire_grace_period");
        reveal_strlit("kind");
        reveal_strlit("name");
        reveal_strlit("role_id");
        reveal_strlit("synced_at");
        reveal_strlit("syncing");
        reveal_strlit("user");
    }

    /// A mapping that holds the required fields of an integration and no other, each with a
    /// value that decodes, is decoded.
    pub proof fn lemma_minimal_decodes(source: Map<Seq<char>, Value>)
        requires
            source.dom() =~= set![
                "id"@,
                "account"@,
                "enabled"@,
                "expire_behavior"@,
                "expire_grace_period"@,
                "kind"@,
                "name"@,
                "role_id"@,
                "synced_at"@,
                "syncing"@,
                "user"@,
            ],
            IntegrationId::decoded(source["id"@]) is Ok,
            IntegrationAccount::decoded(source["account"@]) is Ok,
            bool::decoded(source["enabled"@]) is Ok,
            u64::decoded(source["expire_behavior"@]) is Ok,
            u64::decoded(source["expire_grace_period"@]) is Ok,
            String::decoded(source["kind"@]) is Ok,
            String::decoded(source["name"@]) is Ok,
            RoleId::decoded(source["role_id"@]) is Ok,
            u64::decoded(source["synced_at"@]) is Ok,
            bool::decoded(source["syncing"@]) is Ok,
            User::decoded(source["user"@]) is Ok,
        ensures
            Integration::from_fields(source) is Ok,
    {
        Integration::lemma_field_names();
    }

    /// Without one of its required fields, a mapping that was decoded as an integration fails,
    /// and the error names exactly the field that is gone.
    pub proof fn lemma_missing_required_field(source: Map<Seq<char>, Value>)
        requires
            Integration::from_fields(source) is Ok,
        ensures
            fails_with(
                Integration::from_fields(source.remove("id"@)),
                Error::MissingField("id"),
            ),
            fails_with(
                Integration::from_fields(source.remove("account"@)),
                Error::MissingField("account"),
            ),
            fails_with(
                Integration::from_fields(source.remove("enabled"@)),
                Error::MissingField("enabled"),
            ),
            fails_with(
                Integration::from_fields(source.remove("expire_behavior"@)),
                Error::MissingField("expire_behavior"),
            ),
            fails_with(
                Integration::from_fields(source.remove("expire_grace_period"@)),
                Error::MissingField("expire_grace_period"),
            ),
            fails_with(
                Integration::from_fields(source.remove("kind"@)),
                Error::MissingField("kind"),
            ),
            fails_with(
                Integration::from_fields(source.remove("name"@)),
                Error::MissingField("name"),
            ),
            fails_with(
                Integration::from_fields(source.remove("role_id"@)),
                Error::MissingField("role_id"),
            ),
            fails_with(
                Integration::from_fields(source.remove("synced_at"@)),
                Error::MissingField("synced_at"),
            ),
            fails_with(
                Integration::from_fields(source.remove("syncing"@)),
                Error::MissingField("syncing"),
            ),
            fails_with(
                Integration::from_fields(source.remove("user"@)),
                Error::MissingField("user"),
            ),
    {
        Integration::lemma_field_names();
    }

    /// A field that an integration does not have changes nothing: it is passed over, whatever
    /// it holds.
    pub proof fn lemma_unknown_field_ignored(
        source: Map<Seq<char>, Value>,
        key: Seq<char>,
        value: Value,
    )
        requires
            key != "id"@,
            key != "account"@,
            key != "enabled"@,
            key != "expire_behavior"@,
            key != "expire_grace_period"@,
            key != "kind"@,
            key != "name"@,
            key != "role_id"@,
            key != "synced_at"@,
            key != "syncing"@,
            key != "user"@,
        ensures
            Integration::from_fields(source.insert(key, value)) == Integration::from_fields(source),
    {
    }
}

impl Decode for Integration {
    open spec fn decoded(value: Value) -> Result<IntegrationModel, Error> {
        match value {
            Value::Mapping(source) => Integration::from_fields(source@),
            _ => Err(Error::mismatch(Shape::Mapping)),
        }
    }

    fn decode(value: Value) -> (r: Result<Integration, Error>) {
        let mut source = expect_map(value)?;
        proof {
            Integration::lemma_field_names();
        }
        let id = required::<IntegrationId>(&mut source, "id")?;
        let account = required::<IntegrationAccount>(&mut source, "account")?;
        let enabled = required::<bool>(&mut source, "enabled")?;
        let expire_behavior = required::<u64>(&mut source, "expire_behavior")?;
        let expire_grace_period = required::<u64>(&mut source, "expire_grace_period")?;
        let kind = required::<String>(&mut source, "kind")?;
        let name = required::<String>(&mut source, "name")?;
        let role_id = required::<RoleId>(&mut source, "role_id")?;
        let synced_at = required::<u64>(&mut source, "synced_at")?;
        let syncing = required::<bool>(&mut source, "syncing")?;
        let user = required::<User>(&mut source, "user")?;
        Ok(
            Integration {
                id,
                account,
                enabled,
                expire_behavior,
                expire_grace_period,
                kind,
                name,
                role_id,
                synced_at,
                syncing,
                user,
            },
        )
    }
}

/// The settings of the embed of a guild.
#[derive(Clone, Debug, PartialEq, Eq)]
pub struct GuildEmbed {
    /// The channel that the embed shows.
    pub channel_id: ChannelId,
    /// Whether the embed is enabled.
    pub enabled: bool,
}

/// The model of a guild embed: what the record holds, as a mathematical value.
pub struct GuildEmbedModel {
    pub channel_id: ChannelId,
    pub enabled: bool,
}

impl DeepView for GuildEmbed {
    type V = GuildEmbedModel;

    open spec fn deep_view(&self) -> GuildEmbedModel {
        GuildEmbedModel {
            channel_id: self.channel_id.deep_view(),
            enabled: self.enabled.deep_view(),
        }
    }
}

impl GuildEmbed {
    /// What a mapping with the contents `source` gives as a guild embed: the record put
    /// together from its fields, or the error of the first field, in the order written here,
    /// that fails.
    pub open spec fn from_fields(source: Map<Seq<char>, Value>) -> Result<GuildEmbedModel, Error> {
        let channel_id = required_field::<ChannelId>(source, "channel_id");
        let enabled = required_field::<bool>(source, "enabled");
        if channel_id is Err {
            Err(channel_id->Err_0)
        } else if enabled is Err {
            Err(enabled->Err_0)
        } else {
            Ok(
                GuildEmbedModel {
                    channel_id: channel_id->Ok_0,
                    enabled: enabled->Ok_0,
                },
            )
        }
    }

    /// What tells the field names of a guild embed apart: their lengths and, among names of one
    /// length, their letters.
    pub proof fn lemma_field_names()
        ensures
            "channel_id"@.len() == 10,
            "enabled"@.len() == 7,
    {
        reveal_strlit("channel_id");
        reveal_strlit("enabled");
    }

    /// A mapping that holds the required fields of a guild embed and no other, each with a
    /// value that decodes, is decoded.
    pub proof fn lemma_minimal_decodes(source: Map<Seq<char>, Value>)
        requires
            source.dom() =~= set!["channel_id"@, "enabled"@],
            ChannelId::decoded(source["channel_id"@]) is Ok,
            bool::decoded(source["enabled"@]) is Ok,
        ensures
            GuildEmbed::from_fields(source) is Ok,
    {
        GuildEmbed::lemma_field_names();
    }

    /// Without one of its required fields, a mapping that was decoded as a guild embed fails,
    /// and the error names exactly the field that is gone.
    pub proof fn lemma_missing_required_field(source: Map<Seq<char>, Value>)
        requires
            GuildEmbed::from_fields(source) is Ok,
        ensures
            fails_with(
                GuildEmbed::from_fields(source.remove("channel_id"@)),
                Error::MissingField("channel_id"),
            ),
            fails_with(
                GuildEmbed::from_fields(source.remove("enabled"@)),
                Error::MissingField("enabled"),
            ),
    {
        GuildEmbed::lemma_field_names();
    }

    /// A field that a guild embed does not have changes nothing: it is passed over, whatever it
    /// holds.
    pub proof fn lemma_unknown_field_ignored(
        source: Map<Seq<char>, Value>,
        key: Seq<char>,
        value: Value,
    )
        requires
            key != "channel_id"@,
            key != "enabled"@,
        ensures
            GuildEmbed::from_fields(source.insert(key, value)) == GuildEmbed::from_fields(source),
    {
    }
}

impl Decode for GuildEmbed {
    open spec fn decoded(value: Value) -> Result<GuildEmbedModel, Error> {
        match value {
            Value::Mapping(source) => GuildEmbed::from_fields(source@),
            _ => Err(Error::mismatch(Shape::Mapping)),
        }
    }

    fn decode(value: Value) -> (r: Result<GuildEmbed, Error>) {
        let mut source = expect_map(value)?;
        proof {
            GuildEmbed::lemma_field_names();
        }
        let channel_id = required::<ChannelId>(&mut source, "channel_id")?;
        let enabled = required::<bool>(&mut source, "enabled")?;
        Ok(
            GuildEmbed {
                channel_id,
                enabled,
            },
        )
    }
}

/// The little that is told about a guild of the current user.
#[derive(Clone, Debug, PartialEq, Eq)]
pub struct GuildInfo {
    /// The id of the guild.
    pub id: GuildId,
    /// The hash of the icon, if one is set.
    pub icon: Option<String>,
    /// The name of the guild.
    pub name: String,
    /// Whether the current user owns the guild.
    pub owner: bool,
    /// The permissions of the current user in the guild.
    pub permissions: Permissions,
}

/// The model of a guild summary: what the record holds, as a mathematical value.
pub struct GuildInfoModel {
    pub id: GuildId,
    pub icon: Option<Seq<char>>,
    pub name: Seq<char>,
    pub owner: bool,
    pub permissions: Permissions,
}

impl DeepView for GuildInfo {
    type V = GuildInfoModel;

    open spec fn deep_view(&self) -> GuildInfoModel {
        GuildInfoModel {
            id: self.id.deep_view(),
            icon: self.icon.deep_view(),
            name: self.name.deep_view(),
            owner: self.owner.deep_view(),
            permissions: self.permissions.deep_view(),
        }
    }
}

impl GuildInfo {
    /// What a mapping with the contents `source` gives as a guild summary: the record put
    /// together from its fields, or the error of the first field, in the order written here,
    /// that fails.
    pub open spec fn from_fields(source: Map<Seq<char>, Value>) -> Result<GuildInfoModel, Error> {
        let id = required_field::<GuildId>(source, "id");
        let icon = optional_field::<String>(source, "icon");
        let name = required_field::<String>(source, "name");
        let owner = required_field::<bool>(source, "owner");
        let permissions = required_field::<Permissions>(source, "permissions");
        if id is Err {
            Err(id->Err_0)
        } else if icon is Err {
            Err(icon->Err_0)
        } else if name is Err {
            Err(name->Err_0)
        } else if owner is Err {
            Err(owner->Err_0)
        } else if permissions is Err {
            Err(permissions->Err_0)
        } else {
            Ok(
                GuildInfoModel {
                    id: id->Ok_0,
                    icon: icon->Ok_0,
                    name: name->Ok_0,
                    owner: owner->Ok_0,
                    permissions: permissions->Ok_0,
                },
            )
        }
    }

    /// What tells the field names of a guild summary apart: their lengths and, among names of
    /// one length, their letters.
    pub proof fn lemma_field_names()
        ensures
            "id"@.len() == 2,
            "icon"@.len() == 4,
            "name"@.len() == 4,
            "owner"@.len() == 5,
            "permissions"@.len() == 11,
            "icon"@[0] == 'i',
            "name"@[0] == 'n',
    {
        reveal_strlit("id");
        reveal_strlit("icon");
        reveal_strlit("name");
        reveal_strlit("owner");
        reveal_strlit("permissions");
    }

    /// A mapping that holds the required fields of a guild summary and no other, each with a
    /// value that decodes, is decoded.
    pub proof fn lemma_minimal_decodes(source: Map<Seq<char>, Value>)
        requires
            source.dom() =~= set!["id"@, "name"@, "owner"@, "permissions"@],
            GuildId::decoded(source["id"@]) is Ok,
            String::decoded(source["name"@]) is Ok,
            bool::decoded(source["owner"@]) is Ok,
            Permissions::decoded(source["permissions"@]) is Ok,
        ensures
            GuildInfo::from_fields(source) is Ok,
    {
        GuildInfo::lemma_field_names();
    }

    /// Without one of its required fields, a mapping that was decoded as a guild summary fails,
    /// and the error names exactly the field that is gone.
    pub proof fn lemma_missing_required_field(source: Map<Seq<char>, Value>)
        requires
            GuildInfo::from_fields(source) is Ok,
        ensures
            fails_with(
                GuildInfo::from_fields(source.remove("id"@)),
                Error::MissingField("id"),
            ),
            fails_with(
                GuildInfo::from_fields(source.remove("name"@)),
                Error::MissingField("name"),
            ),
            fails_with(
                GuildInfo::from_fields(source.remove("owner"@)),
                Error::MissingField("owner"),
            ),
            fails_with(
                GuildInfo::from_fields(source.remove("permissions"@)),
                Error::MissingField("permissions"),
            ),
    {
        GuildInfo::lemma_field_names();
    }

    /// A field that a guild summary does not have changes nothing: it is passed over, whatever
    /// it holds.
    pub proof fn lemma_unknown_field_ignored(
        source: Map<Seq<char>, Value>,
        key: Seq<char>,
        value: Value,
    )
        requires
            key != "id"@,
            key != "icon"@,
            key != "name"@,
            key != "owner"@,
            key != "permissions"@,
        ensures
            GuildInfo::from_fields(source.insert(key, value)) == GuildInfo::from_fields(source),
    {
    }

    /// An optional field of a guild summary that is absent is decoded as absent, or as its
    /// default. One that is present with a value of the wrong shape is not taken for absent:
    /// the record fails with that mismatch, which names the field.
    pub proof fn lemma_optional_fields(
        source: Map<Seq<char>, Value>,
        wrong: Value,
        expected: Shape,
    )
        requires
            GuildInfo::from_fields(source) is Ok,
        ensures
            !source.contains_key("icon"@) ==> GuildInfo::from_fields(source)->Ok_0.icon is None,
            fails_with(String::decoded(wrong), Error::mismatch(expected)) ==> fails_with(
                GuildInfo::from_fields(source.insert("icon"@, wrong)),
                Error::TypeMismatch(expected, Some("icon")),
            ),
    {
        GuildInfo::lemma_field_names();
    }
}

impl Decode for GuildInfo {
    open spec fn decoded(value: Value) -> Result<GuildInfoModel, Error> {
        match value {
            Value::Mapping(source) => GuildInfo::from_fields(source@),
            _ => Err(Error::mismatch(Shape::Mapping)),
        }
    }

    fn decode(value: Value) -> (r: Result<GuildInfo, Error>) {
        let mut source = expect_map(value)?;
        proof {
            GuildInfo::lemma_field_names();
        }
        let id = required::<GuildId>(&mut source, "id")?;
        let icon = optional::<String>(&mut source, "icon")?;
        let name = required::<String>(&mut source, "name")?;
        let owner = required::<bool>(&mut source, "owner")?;
        let permissions = required::<Permissions>(&mut source, "permissions")?;
        Ok(
            GuildInfo {
                id,
                icon,
                name,
                owner,
                permissions,
            },
        )
    }
}

/// How many members a prune of a guild removes.
#[derive(Clone, Debug, PartialEq, Eq)]
pub struct GuildPrune {
    /// The number of members.
    pub pruned: u64,
}

/// The model of a prune count: what the record holds, as a mathematical value.
pub struct GuildPruneModel {
    pub pruned: u64,
}

impl DeepView for GuildPrune {
    type V = GuildPruneModel;

    open spec fn deep_view(&self) -> GuildPruneModel {
        GuildPruneModel {
            pruned: self.pruned.deep_view(),
        }
    }
}

impl GuildPrune {
    /// What a mapping with the contents `source` gives as a prune count: the record put
    /// together from its fields, or the error of the first field, in the order written here,
    /// that fails.
    pub open spec fn from_fields(source: Map<Seq<char>, Value>) -> Result<GuildPruneModel, Error> {
        let pruned = required_field::<u64>(source, "pruned");
        if pruned is Err {
            Err(pruned->Err_0)
        } else {
            Ok(
                GuildPruneModel {
                    pruned: pruned->Ok_0,
                },
            )
        }
    }

    /// What tells the field names of a prune count apart: their lengths and, among names of one
    /// length, their letters.
    pub proof fn lemma_field_names()
        ensures
            "pruned"@.len() == 6,
    {
        reveal_strlit("pruned");
    }

    /// A mapping that holds the required fields of a prune count and no other, each with a
    /// value that decodes, is decoded.
    pub proof fn lemma_minimal_decodes(source: Map<Seq<char>, Value>)
        requires
            source.dom() =~= set!["pruned"@],
            u64::decoded(source["pruned"@]) is Ok,
        ensures
            GuildPrune::from_fields(source) is Ok,
    {
        GuildPrune::lemma_field_names();
    }

    /// Without one of its required fields, a mapping that was decoded as a prune count fails,
    /// and the error names exactly the field that is gone.
    pub proof fn lemma_missing_required_field(source: Map<Seq<char>, Value>)
        requires
            GuildPrune::from_fields(source) is Ok,
        ensures
            fails_with(
                GuildPrune::from_fields(source.remove("pruned"@)),
                Error::MissingField("pruned"),
            ),
    {
        GuildPrune::lemma_field_names();
    }

    /// A field that a prune count does not have changes nothing: it is passed over, whatever it
    /// holds.
    pub proof fn lemma_unknown_field_ignored(
        source: Map<Seq<char>, Value>,
        key: Seq<char>,
        value: Value,
    )
        requires
            key != "pruned"@,
        ensures
            GuildPrune::from_fields(source.insert(key, value)) == GuildPrune::from_fields(source),
    {
    }
}

impl Decode for GuildPrune {
    open spec fn decoded(value: Value) -> Result<GuildPruneModel, Error> {
        match value {
            Value::Mapping(source) => GuildPrune::from_fields(source@),
            _ => Err(Error::mismatch(Shape::Mapping)),
        }
    }

    fn decode(value: Value) -> (r: Result<GuildPrune, Error>) {
        let mut source = expect_map(value)?;
        proof {
            GuildPrune::lemma_field_names();
        }
        let pruned = required::<u64>(&mut source, "pruned")?;
        Ok(
            GuildPrune {
                pruned,
            },
        )
    }
}

/// A guild without its members, channels and presences.
#[derive(Clone, Debug, PartialEq, Eq)]
pub struct PartialGuild {
    /// The id of the guild.
    pub id: GuildId,
    /// The voice channel for idle users, if there is one.
    pub afk_channel_id: Option<ChannelId>,
    /// After how many seconds an idle user is moved there.
    pub afk_timeout: u64,
    /// Which messages notify members by default.
    pub default_message_notifications: u64,
    /// The channel that the embed of the guild shows, if any.
    pub embed_channel_id: Option<ChannelId>,
    /// Whether the embed of the guild is enabled.
    pub embed_enabled: bool,
    /// The custom emojis of the guild.
    pub emojis: IdMap<Emoji>,
    /// The special features of the guild.
    pub features: Vec<Feature>,
    /// The hash of the icon, if one is set.
    pub icon: Option<String>,
    /// Whether moderators need a second factor.
    pub mfa_level: u64,
    /// The name of the guild.
    pub name: String,
    /// The user who owns the guild.
    pub owner_id: UserId,
    /// The voice region of the guild.
    pub region: String,
    /// The roles of the guild.
    pub roles: IdMap<Role>,
    /// The hash of the splash image, if one is set.
    pub splash: Option<String>,
    /// What the guild asks of a user before the user may write.
    pub verification_level: VerificationLevel,
}

/// The model of a partial guild: what the record holds, as a mathematical value.
pub struct PartialGuildModel {
    pub id: GuildId,
    pub afk_channel_id: Option<ChannelId>,
    pub afk_timeout: u64,
    pub default_message_notifications: u64,
    pub embed_channel_id: Option<ChannelId>,
    pub embed_enabled: bool,
    pub emojis: Map<u64, EmojiModel>,
    pub features: Seq<Feature>,
    pub icon: Option<Seq<char>>,
    pub mfa_level: u64,
    pub name: Seq<char>,
    pub owner_id: UserId,
    pub region: Seq<char>,
    pub roles: Map<u64, RoleModel>,
    pub splash: Option<Seq<char>>,
    pub verification_level: VerificationLevel,
}

impl DeepView for PartialGuild {
    type V = PartialGuildModel;

    open spec fn deep_view(&self) -> PartialGuildModel {
        PartialGuildModel {
            id: self.id.deep_view(),
            afk_channel_id: self.afk_channel_id.deep_view(),
            afk_timeout: self.afk_timeout.deep_view(),
            default_message_notifications: self.default_message_notifications.deep_view(),
            embed_channel_id: self.embed_channel_id.deep_view(),
            embed_enabled: self.embed_enabled.deep_view(),
            emojis: self.emojis.deep_view(),
            features: self.features.deep_view(),
            icon: self.icon.deep_view(),
            mfa_level: self.mfa_level.deep_view(),
            name: self.name.deep_view(),
            owner_id: self.owner_id.deep_view(),
            region: self.region.deep_view(),
            roles: self.roles.deep_view(),
            splash: self.splash.deep_view(),
            verification_level: self.verification_level.deep_view(),
        }
    }
}

impl PartialGuild {
    /// What a mapping with the contents `source` gives as a partial guild: the record put
    /// together from its fields, or the error of the first field, in the order written here,
    /// that fails.
    pub open spec fn from_fields(source: Map<Seq<char>, Value>) -> Result<
        PartialGuildModel,
        Error,
    > {
        let id = required_field::<GuildId>(source, "id");
        let afk_channel_id = optional_field::<ChannelId>(source, "afk_channel_id");
        let afk_timeout = required_field::<u64>(source, "afk_timeout");
        let default_message_notifications = required_field::<u64>(
            source,
            "default_message_notifications",
        );
        let embed_channel_id = optional_field::<ChannelId>(source, "embed_channel_id");
        let embed_enabled = required_field::<bool>(source, "embed_enabled");
        let emojis = required_field::<IdMap<Emoji>>(source, "emojis");
        let features = required_field::<Vec<Named<Feature>>>(source, "features");
        let icon = optional_field::<String>(source, "icon");
        let mfa_level = required_field::<u64>(source, "mfa_level");
        let name = required_field::<String>(source, "name");
        let owner_id = required_field::<UserId>(source, "owner_id");
        let region = required_field::<String>(source, "region");
        let roles = required_field::<IdMap<Role>>(source, "roles");
        let splash = optional_field::<String>(source, "splash");
        let verification_level = required_field::<Numbered<VerificationLevel>>(
            source,
            "verification_level",
        );
        if id is Err {
            Err(id->Err_0)
        } else if afk_channel_id is Err {
            Err(afk_channel_id->Err_0)
        } else if afk_timeout is Err {
            Err(afk_timeout->Err_0)
        } else if default_message_notifications is Err {
            Err(default_message_notifications->Err_0)
        } else if embed_channel_id is Err {
            Err(embed_channel_id->Err_0)
        } else if embed_enabled is Err {
            Err(embed_enabled->Err_0)
        } else if emojis is Err {
            Err(emojis->Err_0)
        } else if features is Err {
            Err(features->Err_0)
        } else if icon is Err {
            Err(icon->Err_0)
        } else if mfa_level is Err {
            Err(mfa_level->Err_0)
        } else if name is Err {
            Err(name->Err_0)
        } else if owner_id is Err {
            Err(owner_id->Err_0)
        } else if region is Err {
            Err(region->Err_0)
        } else if roles is Err {
            Err(roles->Err_0)
        } else if splash is Err {
            Err(splash->Err_0)
        } else if verification_level is Err {
            Err(verification_level->Err_0)
        } else {
            Ok(
                PartialGuildModel {
                    id: id->Ok_0,
                    afk_channel_id: afk_channel_id->Ok_0,
                    afk_timeout: afk_timeout->Ok_0,
                    default_message_notifications: default_message_notifications->Ok_0,
                    embed_channel_id: embed_channel_id->Ok_0,
                    embed_enabled: embed_enabled->Ok_0,
                    emojis: emojis->Ok_0,
                    features: features->Ok_0,
                    icon: icon->Ok_0,
                    mfa_level: mfa_level->Ok_0,
                    name: name->Ok_0,
                    owner_id: owner_id->Ok_0,
                    region: region->Ok_0,
                    roles: roles->Ok_0,
                    splash: splash->Ok_0,
                    verification_level: verification_level->Ok_0,
                },
            )
        }
    }

    /// What tells the field names of a partial guild apart: their lengths and, among names of
    /// one length, their letters.
    pub proof fn lemma_field_names()
        ensures
            "id"@.len() == 2,
            "afk_channel_id"@.len() == 14,
            "afk_timeout"@.len() == 11,
            "default_message_notifications"@.len() == 29,
            "embed_channel_id"@.len() == 16,
            "embed_enabled"@.len() == 13,
            "emojis"@.len() == 6,
            "features"@.len() == 8,
            "icon"@.len() == 4,
            "mfa_level"@.len() == 9,
            "name"@.len() == 4,
            "owner_id"@.len() == 8,
            "region"@.len() == 6,
            "roles"@.len() == 5,
            "splash"@.len() == 6,
            "verification_level"@.len() == 18,
            "icon"@[0] == 'i',
            "name"@[0] == 'n',
            "emojis"@[0] == 'e',
            "region"@[0] == 'r',
            "splash"@[0] == 's',
            "features"@[0] == 'f',
            "owner_id"@[0] == 'o',
    {
        reveal_strlit("id");
        reveal_strlit("afk_channel_id");
        reveal_strlit("afk_timeout");
        reveal_strlit("default_message_notifications");
        reveal_strlit("embed_channel_id");
        reveal_strlit("embed_enabled");
        reveal_strlit("emojis");
        reveal_strlit("features");
        reveal_strlit("icon");
        reveal_strlit("mfa_level");
        reveal_strlit("name");
        reveal_strlit("owner_id");
        reveal_strlit("region");
        reveal_strlit("roles");
        reveal_strlit("splash");
        reveal_strlit("verification_level");
    }

    /// A mapping that holds the required fields of a partial guild and no other, each with a
    /// value that decodes, is decoded.
    pub proof fn lemma_minimal_decodes(source: Map<Seq<char>, Value>)
        requires
            source.dom() =~= set![
                "id"@,
                "afk_timeout"@,
                "default_message_notifications"@,
                "embed_enabled"@,
                "emojis"@,
                "features"@,
                "mfa_level"@,
                "name"@,
                "owner_id"@,
                "region"@,
                "roles"@,
                "verification_level"@,
            ],
            GuildId::decoded(source["id"@]) is Ok,
            u64::decoded(source["afk_timeout"@]) is Ok,
            u64::decoded(source["default_message_notifications"@]) is Ok,
            bool::decoded(source["embed_enabled"@]) is Ok,
            <IdMap<Emoji>>::decoded(source["emojis"@]) is Ok,
            <Vec<Named<Feature>>>::decoded(source["features"@]) is Ok,
            u64::decoded(source["mfa_level"@]) is Ok,
            String::decoded(source["name"@]) is Ok,
            UserId::decoded(source["owner_id"@]) is Ok,
            String::decoded(source["region"@]) is Ok,
            <IdMap<Role>>::decoded(source["roles"@]) is Ok,
            <Numbered<VerificationLevel>>::decoded(source["verification_level"@]) is Ok,
        ensures
            PartialGuild::from_fields(source) is Ok,
    {
        PartialGuild::lemma_field_names();
    }

    /// Without one of its required fields, a mapping that was decoded as a partial guild fails,
    /// and the error names exactly the field that is gone.
    pub proof fn lemma_missing_required_field(source: Map<Seq<char>, Value>)
        requires
            PartialGuild::from_fields(source) is Ok,
        ensures
            fails_with(
                PartialGuild::from_fields(source.remove("id"@)),
                Error::MissingField("id"),
            ),
            fails_with(
                PartialGuild::from_fields(source.remove("afk_timeout"@)),
                Error::MissingField("afk_timeout"),
            ),
            fails_with(
                PartialGuild::from_fields(source.remove("default_message_notifications"@)),
                Error::MissingField("default_message_notifications"),
            ),
            fails_with(
                PartialGuild::from_fields(source.remove("embed_enabled"@)),
                Error::MissingField("embed_enabled"),
            ),
            fails_with(
                PartialGuild::from_fields(source.remove("emojis"@)),
                Error::MissingField("emojis"),
            ),
            fails_with(
                PartialGuild::from_fields(source.remove("features"@)),
                Error::MissingField("features"),
            ),
            fails_with(
                PartialGuild::from_fields(source.remove("mfa_level"@)),
                Error::MissingField("mfa_level"),
            ),
            fails_with(
                PartialGuild::from_fields(source.remove("name"@)),
                Error::MissingField("name"),
            ),
            fails_with(
                PartialGuild::from_fields(source.remove("owner_id"@)),
                Error::MissingField("owner_id"),
            ),
            fails_with(
                PartialGuild::from_fields(source.remove("region"@)),
                Error::MissingField("region"),
            ),
            fails_with(
                PartialGuild::from_fields(source.remove("roles"@)),
                Error::MissingField("roles"),
            ),
            fails_with(
                PartialGuild::from_fields(source.remove("verification_level"@)),
                Error::MissingField("verification_level"),
            ),
    {
        PartialGuild::lemma_field_names();
    }

    /// A field that a partial guild does not have changes nothing: it is passed over, whatever
    /// it holds.
    pub proof fn lemma_unknown_field_ignored(
        source: Map<Seq<char>, Value>,
        key: Seq<char>,
        value: Value,
    )
        requires
            key != "id"@,
            key != "afk_channel_id"@,
            key != "afk_timeout"@,
            key != "default_message_notifications"@,
            key != "embed_channel_id"@,
            key != "embed_enabled"@,
            key != "emojis"@,
            key != "features"@,
            key != "icon"@,
            key != "mfa_level"@,
            key != "name"@,
            key != "owner_id"@,
            key != "region"@,
            key != "roles"@,
            key != "splash"@,
            key != "verification_level"@,
        ensures
            PartialGuild::from_fields(source.insert(key, value))
                == PartialGuild::from_fields(source),
    {
    }

    /// An optional field of a partial guild that is absent is decoded as absent, or as its
    /// default. One that is present with a value of the wrong shape is not taken for absent:
    /// the record fails with that mismatch, which names the field.
    pub proof fn lemma_optional_fields(
        source: Map<Seq<char>, Value>,
        wrong: Value,
        expected: Shape,
    )
        requires
            PartialGuild::from_fields(source) is Ok,
        ensures
            !source.contains_key("afk_channel_id"@)
                ==> PartialGuild::from_fields(source)->Ok_0.afk_channel_id is None,
            fails_with(ChannelId::decoded(wrong), Error::mismatch(expected)) ==> fails_with(
                PartialGuild::from_fields(source.insert("afk_channel_id"@, wrong)),
                Error::TypeMismatch(expected, Some("afk_channel_id")),
            ),
            !source.contains_key("embed_channel_id"@)
                ==> PartialGuild::from_fields(source)->Ok_0.embed_channel_id is None,
            fails_with(ChannelId::decoded(wrong), Error::mismatch(expected)) ==> fails_with(
                PartialGuild::from_fields(source.insert("embed_channel_id"@, wrong)),
                Error::TypeMismatch(expected, Some("embed_channel_id")),
            ),
            !source.contains_key("icon"@) ==> PartialGuild::from_fields(source)->Ok_0.icon is None,
            fails_with(String::decoded(wrong), Error::mismatch(expected)) ==> fails_with(
                PartialGuild::from_fields(source.insert("icon"@, wrong)),
                Error::TypeMismatch(expected, Some("icon")),
            ),
            !source.contains_key("splash"@)
                ==> PartialGuild::from_fields(source)->Ok_0.splash is None,
            fails_with(String::decoded(wrong), Error::mismatch(expected)) ==> fails_with(
                PartialGuild::from_fields(source.insert("splash"@, wrong)),
                Error::TypeMismatch(expected, Some("splash")),
            ),
    {
        PartialGuild::lemma_field_names();
    }
}

impl Decode for PartialGuild {
    open spec fn decoded(value: Value) -> Result<PartialGuildModel, Error> {
        match value {
            Value::Mapping(source) => PartialGuild::from_fields(source@),
            _ => Err(Error::mismatch(Shape::Mapping)),
        }
    }

    fn decode(value: Value) -> (r: Result<PartialGuild, Error>) {
        let mut source = expect_map(value)?;
        proof {
            PartialGuild::lemma_field_names();
        }
        let id = required::<GuildId>(&mut source, "id")?;
        let afk_channel_id = optional::<ChannelId>(&mut source, "afk_channel_id")?;
        let afk_timeout = required::<u64>(&mut source, "afk_timeout")?;
        let default_message_notifications = required::<u64>(
            &mut source,
            "default_message_notifications",
        )?;
        let embed_channel_id = optional::<ChannelId>(&mut source, "embed_channel_id")?;
        let embed_enabled = required::<bool>(&mut source, "embed_enabled")?;
        let emojis = required::<IdMap<Emoji>>(&mut source, "emojis")?;
        let features = required::<Vec<Named<Feature>>>(&mut source, "features")?;
        let features = named_members(features);
        assert(features.deep_view() =~= features@);
        let icon = optional::<String>(&mut source, "icon")?;
        let mfa_level = required::<u64>(&mut source, "mfa_level")?;
        let name = required::<String>(&mut source, "name")?;
        let owner_id = required::<UserId>(&mut source, "owner_id")?;
        let region = required::<String>(&mut source, "region")?;
        let roles = required::<IdMap<Role>>(&mut source, "roles")?;
        let splash = optional::<String>(&mut source, "splash")?;
        let verification_level = required::<Numbered<VerificationLevel>>(
            &mut source,
            "verification_level",
        )?;
        Ok(
            PartialGuild {
                id,
                afk_channel_id,
                afk_timeout,
                default_message_notifications,
                embed_channel_id,
                embed_enabled,
                emojis,
                features,
                icon,
                mfa_level,
                name,
                owner_id,
                region,
                roles,
                splash,
                verification_level: verification_level.0,
            },
        )
    }
}

/// A guild, with its channels, members and presences.
#[derive(Clone, Debug, PartialEq, Eq)]
pub struct Guild {
    /// The voice channel for idle users, if there is one.
    pub afk_channel_id: Option<ChannelId>,
    /// After how many seconds an idle user is moved there.
    pub afk_timeout: u64,
    /// The channels of the guild.
    pub channels: IdMap<GuildChannel>,
    /// Which messages notify members by default.
    pub default_message_notifications: u64,
    /// The custom emojis of the guild.
    pub emojis: IdMap<Emoji>,
    /// The special features of the guild.
    pub features: Vec<Feature>,
    /// The hash of the icon, if one is set.
    pub icon: Option<String>,
    /// The id of the guild.
    pub id: GuildId,
    /// When the current user joined the guild.
    pub joined_at: String,
    /// Whether the guild has so many members that those offline are left out at first.
    pub large: bool,
    /// How many members the guild has.
    pub member_count: u64,
    /// The members of the guild.
    pub members: IdMap<Member>,
    /// Whether moderators need a second factor.
    pub mfa_level: u64,
    /// The name of the guild.
    pub name: String,
    /// The user who owns the guild.
    pub owner_id: UserId,
    /// The presences of the members.
    pub presences: IdMap<Presence>,
    /// The voice region of the guild.
    pub region: String,
    /// The roles of the guild.
    pub roles: IdMap<Role>,
    /// The hash of the splash image, if one is set.
    pub splash: Option<String>,
    /// What the guild asks of a user before the user may write.
    pub verification_level: VerificationLevel,
    /// The voice states of the members in voice channels.
    pub voice_states: IdMap<VoiceState>,
}

/// The model of a guild: what the record holds, as a mathematical value.
pub struct GuildModel {
    pub afk_channel_id: Option<ChannelId>,
    pub afk_timeout: u64,
    pub channels: Map<u64, GuildChannelModel>,
    pub default_message_notifications: u64,
    pub emojis: Map<u64, EmojiModel>,
    pub features: Seq<Feature>,
    pub icon: Option<Seq<char>>,
    pub id: GuildId,
    pub joined_at: Seq<char>,
    pub large: bool,
    pub member_count: u64,
    pub members: Map<u64, MemberModel>,
    pub mfa_level: u64,
    pub name: Seq<char>,
    pub owner_id: UserId,
    pub presences: Map<u64, PresenceModel>,
    pub region: Seq<char>,
    pub roles: Map<u64, RoleModel>,
    pub splash: Option<Seq<char>>,
    pub verification_level: VerificationLevel,
    pub voice_states: Map<u64, VoiceStateModel>,
}

impl DeepView for Guild {
    type V = GuildModel;

    open spec fn deep_view(&self) -> GuildModel {
        GuildModel {
            afk_channel_id: self.afk_channel_id.deep_view(),
            afk_timeout: self.afk_timeout.deep_view(),
            channels: self.channels.deep_view(),
            default_message_notifications: self.default_message_notifications.deep_view(),
            emojis: self.emojis.deep_view(),
            features: self.features.deep_view(),
            icon: self.icon.deep_view(),
            id: self.id.deep_view(),
            joined_at: self.joined_at.deep_view(),
            large: self.large.deep_view(),
            member_count: self.member_count.deep_view(),
            members: self.members.deep_view(),
            mfa_level: self.mfa_level.deep_view(),
            name: self.name.deep_view(),
            owner_id: self.owner_id.deep_view(),
            presences: self.presences.deep_view(),
            region: self.region.deep_view(),
            roles: self.roles.deep_view(),
            splash: self.splash.deep_view(),
            verification_level: self.verification_level.deep_view(),
            voice_states: self.voice_states.deep_view(),
        }
    }
}

impl Guild {
    /// What a mapping with the contents `source` gives as a guild: the record put together from
    /// its fields, or the error of the first field, in the order written here, that fails.
    pub open spec fn from_fields(source: Map<Seq<char>, Value>) -> Result<GuildModel, Error> {
        let id = required_field::<GuildId>(source, "id");
        let channels = guild_channels_field(source, "channels", id->Ok_0);
        let afk_channel_id = optional_field::<ChannelId>(source, "afk_channel_id");
        let afk_timeout = required_field::<u64>(source, "afk_timeout");
        let default_message_notifications = required_field::<u64>(
            source,
            "default_message_notifications",
        );
        let emojis = required_field::<IdMap<Emoji>>(source, "emojis");
        let features = required_field::<Vec<Named<Feature>>>(source, "features");
        let icon = optional_field::<String>(source, "icon");
        let joined_at = required_field::<String>(source, "joined_at");
        let large = required_field::<bool>(source, "large");
        let member_count = required_field::<u64>(source, "member_count");
        let members = required_field::<IdMap<Member>>(source, "members");
        let mfa_level = required_field::<u64>(source, "mfa_level");
        let name = required_field::<String>(source, "name");
        let owner_id = required_field::<UserId>(source, "owner_id");
        let presences = required_field::<IdMap<Presence>>(source, "presences");
        let region = required_field::<String>(source, "region");
        let roles = required_field::<IdMap<Role>>(source, "roles");
        let splash = optional_field::<String>(source, "splash");
        let verification_level = required_field::<Numbered<VerificationLevel>>(
            source,
            "verification_level",
        );
        let voice_states = required_field::<IdMap<VoiceState>>(source, "voice_states");
        if id is Err {
            Err(id->Err_0)
        } else if channels is Err {
            Err(channels->Err_0)
        } else if afk_channel_id is Err {
            Err(afk_channel_id->Err_0)
        } else if afk_timeout is Err {
            Err(afk_timeout->Err_0)
        } else if default_message_notifications is Err {
            Err(default_message_notifications->Err_0)
        } else if emojis is Err {
            Err(emojis->Err_0)
        } else if features is Err {
            Err(features->Err_0)
        } else if icon is Err {
            Err(icon->Err_0)
        } else if joined_at is Err {
            Err(joined_at->Err_0)
        } else if large is Err {
            Err(large->Err_0)
        } else if member_count is Err {
            Err(member_count->Err_0)
        } else if members is Err {
            Err(members->Err_0)
        } else if mfa_level is Err {
            Err(mfa_level->Err_0)
        } else if name is Err {
            Err(name->Err_0)
        } else if owner_id is Err {
            Err(owner_id->Err_0)
        } else if presences is Err {
            Err(presences->Err_0)
        } else if region is Err {
            Err(region->Err_0)
        } else if roles is Err {
            Err(roles->Err_0)
        } else if splash is Err {
            Err(splash->Err_0)
        } else if verification_level is Err {
            Err(verification_level->Err_0)
        } else if voice_states is Err {
            Err(voice_states->Err_0)
        } else {
            Ok(
                GuildModel {
                    afk_channel_id: afk_channel_id->Ok_0,
                    afk_timeout: afk_timeout->Ok_0,
                    channels: channels->Ok_0,
                    default_message_notifications: default_message_notifications->Ok_0,
                    emojis: emojis->Ok_0,
                    features: features->Ok_0,
                    icon: icon->Ok_0,
                    id: id->Ok_0,
                    joined_at: joined_at->Ok_0,
                    large: large->Ok_0,
                    member_count: member_count->Ok_0,
                    members: members->Ok_0,
                    mfa_level: mfa_level->Ok_0,
                    name: name->Ok_0,
                    owner_id: owner_id->Ok_0,
                    presences: presences->Ok_0,
                    region: region->Ok_0,
                    roles: roles->Ok_0,
                    splash: splash->Ok_0,
                    verification_level: verification_level->Ok_0,
                    voice_states: voice_states->Ok_0,
                },
            )
        }
    }

    /// What tells the field names of a guild apart: their lengths and, among names of one
    /// length, their letters.
    pub proof fn lemma_field_names()
        ensures
            "id"@.len() == 2,
            "channels"@.len() == 8,
            "afk_channel_id"@.len() == 14,
            "afk_timeout"@.len() == 11,
            "default_message_notifications"@.len() == 29,
            "emojis"@.len() == 6,
            "features"@.len() == 8,
            "icon"@.len() == 4,
            "joined_at"@.len() == 9,
            "large"@.len() == 5,
            "member_count"@.len() == 12,
            "members"@.len() == 7,
            "mfa_level"@.len() == 9,
            "name"@.len() == 4,
            "owner_id"@.len() == 8,
            "presences"@.len() == 9,
            "region"@.len() == 6,
            "roles"@.len() == 5,
            "splash"@.len() == 6,
            "verification_level"@.len() == 18,
            "voice_states"@.len() == 12,
            "icon"@[0] == 'i',
            "name"@[0] == 'n',
            "large"@[0] == 'l',
            "roles"@[0] == 'r',
            "emojis"@[0] == 'e',
            "region"@[0] == 'r',
            "splash"@[0] == 's',
            "channels"@[0] == 'c',
            "features"@[0] == 'f',
            "owner_id"@[0] == 'o',
            "joined_at"@[0] == 'j',
            "mfa_level"@[0] == 'm',
            "presences"@[0] == 'p',
            "member_count"@[0] == 'm',
            "voice_states"@[0] == 'v',
    {
        reveal_strlit("id");
        reveal_strlit("channels");
        reveal_strlit("afk_channel_id");
        reveal_strlit("afk_timeout");
        reveal_strlit("default_message_notifications");
        reveal_strlit("emojis");
        reveal_strlit("features");
        reveal_strlit("icon");
        reveal_strlit("joined_at");
        reveal_strlit("large");
        reveal_strlit("member_count");
        reveal_strlit("members");
        reveal_strlit("mfa_level");
        reveal_strlit("name");
        reveal_strlit("owner_id");
        reveal_strlit("presences");
        reveal_strlit("region");
        reveal_strlit("roles");
        reveal_strlit("splash");
        reveal_strlit("verification_level");
        reveal_strlit("voice_states");
    }

    /// A mapping that holds the required fields of a guild and no other, each with a value that
    /// decodes, is decoded.
    pub proof fn lemma_minimal_decodes(source: Map<Seq<char>, Value>)
        requires
            source.dom() =~= set![
                "id"@,
                "channels"@,
                "afk_timeout"@,
                "default_message_notifications"@,
                "emojis"@,
                "features"@,
                "joined_at"@,
                "large"@,
                "member_count"@,
                "members"@,
                "mfa_level"@,
                "name"@,
                "owner_id"@,
                "presences"@,
                "region"@,
                "roles"@,
                "verification_level"@,
                "voice_states"@,
            ],
            GuildId::decoded(source["id"@]) is Ok,
            guild_channels(
                source["channels"@],
                GuildId::decoded(source["id"@])->Ok_0,
            ) is Ok,
            u64::decoded(source["afk_timeout"@]) is Ok,
            u64::decoded(source["default_message_notifications"@]) is Ok,
            <IdMap<Emoji>>::decoded(source["emojis"@]) is Ok,
            <Vec<Named<Feature>>>::decoded(source["features"@]) is Ok,
            String::decoded(source["joined_at"@]) is Ok,
            bool::decoded(source["large"@]) is Ok,
            u64::decoded(source["member_count"@]) is Ok,
            <IdMap<Member>>::decoded(source["members"@]) is Ok,
            u64::decoded(source["mfa_level"@]) is Ok,
            String::decoded(source["name"@]) is Ok,
            UserId::decoded(source["owner_id"@]) is Ok,
            <IdMap<Presence>>::decoded(source["presences"@]) is Ok,
            String::decoded(source["region"@]) is Ok,
            <IdMap<Role>>::decoded(source["roles"@]) is Ok,
            <Numbered<VerificationLevel>>::decoded(source["verification_level"@]) is Ok,
            <IdMap<VoiceState>>::decoded(source["voice_states"@]) is Ok,
        ensures
            Guild::from_fields(source) is Ok,
    {
        Guild::lemma_field_names();
    }

    /// Without one of its required fields, a mapping that was decoded as a guild fails, and the
    /// error names exactly the field that is gone.
    pub proof fn lemma_missing_required_field(source: Map<Seq<char>, Value>)
        requires
            Guild::from_fields(source) is Ok,
        ensures
            fails_with(
                Guild::from_fields(source.remove("id"@)),
                Error::MissingField("id"),
            ),
            fails_with(
                Guild::from_fields(source.remove("channels"@)),
                Error::MissingField("channels"),
            ),
            fails_with(
                Guild::from_fields(source.remove("afk_timeout"@)),
                Error::MissingField("afk_timeout"),
            ),
            fails_with(
                Guild::from_fields(source.remove("default_message_notifications"@)),
                Error::MissingField("default_message_notifications"),
            ),
            fails_with(
                Guild::from_fields(source.remove("emojis"@)),
                Error::MissingField("emojis"),
            ),
            fails_with(
                Guild::from_fields(source.remove("features"@)),
                Error::MissingField("features"),
            ),
            fails_with(
                Guild::from_fields(source.remove("joined_at"@)),
                Error::MissingField("joined_at"),
            ),
            fails_with(
                Guild::from_fields(source.remove("large"@)),
                Error::MissingField("large"),
            ),
            fails_with(
                Guild::from_fields(source.remove("member_count"@)),
                Error::MissingField("member_count"),
            ),
            fails_with(
                Guild::from_fields(source.remove("members"@)),
                Error::MissingField("members"),
            ),
            fails_with(
                Guild::from_fields(source.remove("mfa_level"@)),
                Error::MissingField("mfa_level"),
            ),
            fails_with(
                Guild::from_fields(source.remove("name"@)),
                Error::MissingField("name"),
            ),
            fails_with(
                Guild::from_fields(source.remove("owner_id"@)),
                Error::MissingField("owner_id"),
            ),
            fails_with(
                Guild::from_fields(source.remove("presences"@)),
                Error::MissingField("presences"),
            ),
            fails_with(
                Guild::from_fields(source.remove("region"@)),
                Error::MissingField("region"),
            ),
            fails_with(
                Guild::from_fields(source.remove("roles"@)),
                Error::MissingField("roles"),
            ),
            fails_with(
                Guild::from_fields(source.remove("verification_level"@)),
                Error::MissingField("verification_level"),
            ),
            fails_with(
                Guild::from_fields(source.remove("voice_states"@)),
                Error::MissingField("voice_states"),
            ),
    {
        Guild::lemma_field_names();
    }

    /// A field that a guild does not have changes nothing: it is passed over, whatever it
    /// holds.
    pub proof fn lemma_unknown_field_ignored(
        source: Map<Seq<char>, Value>,
        key: Seq<char>,
        value: Value,
    )
        requires
            key != "id"@,
            key != "channels"@,
            key != "afk_channel_id"@,
            key != "afk_timeout"@,
            key != "default_message_notifications"@,
            key != "emojis"@,
            key != "features"@,
            key != "icon"@,
            key != "joined_at"@,
            key != "large"@,
            key != "member_count"@,
            key != "members"@,
            key != "mfa_level"@,
            key != "name"@,
            key != "owner_id"@,
            key != "presences"@,
            key != "region"@,
            key != "roles"@,
            key != "splash"@,
            key != "verification_level"@,
            key != "voice_states"@,
        ensures
            Guild::from_fields(source.insert(key, value)) == Guild::from_fields(source),
    {
    }

    /// An optional field of a guild that is absent is decoded as absent, or as its default. One
    /// that is present with a value of the wrong shape is not taken for absent: the record
    /// fails with that mismatch, which names the field.
    pub proof fn lemma_optional_fields(
        source: Map<Seq<char>, Value>,
        wrong: Value,
        expected: Shape,
    )
        requires
            Guild::from_fields(source) is Ok,
        ensures
            !source.contains_key("afk_channel_id"@)
                ==> Guild::from_fields(source)->Ok_0.afk_channel_id is None,
            fails_with(ChannelId::decoded(wrong), Error::mismatch(expected)) ==> fails_with(
                Guild::from_fields(source.insert("afk_channel_id"@, wrong)),
                Error::TypeMismatch(expected, Some("afk_channel_id")),
            ),
            !source.contains_key("icon"@) ==> Guild::from_fields(source)->Ok_0.icon is None,
            fails_with(String::decoded(wrong), Error::mismatch(expected)) ==> fails_with(
                Guild::from_fields(source.insert("icon"@, wrong)),
                Error::TypeMismatch(expected, Some("icon")),
            ),
            !source.contains_key("splash"@) ==> Guild::from_fields(source)->Ok_0.splash is None,
            fails_with(String::decoded(wrong), Error::mismatch(expected)) ==> fails_with(
                Guild::from_fields(source.insert("splash"@, wrong)),
                Error::TypeMismatch(expected, Some("splash")),
            ),
    {
        Guild::lemma_field_names();
    }
}

impl Decode for Guild {
    open spec fn decoded(value: Value) -> Result<GuildModel, Error> {
        match value {
            Value::Mapping(source) => Guild::from_fields(source@),
            _ => Err(Error::mismatch(Shape::Mapping)),
        }
    }

    fn decode(value: Value) -> (r: Result<Guild, Error>) {
        let mut source = expect_map(value)?;
        proof {
            Guild::lemma_field_names();
        }
        let id = required::<GuildId>(&mut source, "id")?;
        let channels = required_guild_channels(&mut source, "channels", id)?;
        let afk_channel_id = optional::<ChannelId>(&mut source, "afk_channel_id")?;
        let afk_timeout = required::<u64>(&mut source, "afk_timeout")?;
        let default_message_notifications = required::<u64>(
            &mut source,
            "default_message_notifications",
        )?;
        let emojis = required::<IdMap<Emoji>>(&mut source, "emojis")?;
        let features = required::<Vec<Named<Feature>>>(&mut source, "features")?;
        let features = named_members(features);
        assert(features.deep_view() =~= features@);
        let icon = optional::<String>(&mut source, "icon")?;
        let joined_at = required::<String>(&mut source, "joined_at")?;
        let large = required::<bool>(&mut source, "large")?;
        let member_count = required::<u64>(&mut source, "member_count")?;
        let members = required::<IdMap<Member>>(&mut source, "members")?;
        let mfa_level = required::<u64>(&mut source, "mfa_level")?;
        let name = required::<String>(&mut source, "name")?;
        let owner_id = required::<UserId>(&mut source, "owner_id")?;
        let presences = required::<IdMap<Presence>>(&mut source, "presences")?;
        let region = required::<String>(&mut source, "region")?;
        let roles = required::<IdMap<Role>>(&mut source, "roles")?;
        let splash = optional::<String>(&mut source, "splash")?;
        let verification_level = required::<Numbered<VerificationLevel>>(
            &mut source,
            "verification_level",
        )?;
        let voice_states = required::<IdMap<VoiceState>>(&mut source, "voice_states")?;
        Ok(
            Guild {
                afk_channel_id,
                afk_timeout,
                channels,
                default_message_notifications,
                emojis,
                features,
                icon,
                id,
                joined_at,
                large,
                member_count,
                members,
                mfa_level,
                name,
                owner_id,
                presences,
                region,
                roles,
                splash,
                verification_level: verification_level.0,
                voice_states,
            },
        )
    }
}

} // verus!
