//! Users, their relationships and their settings.

use crate::access::expect_map;
use crate::codec::Named;
use crate::codec::Numbered;
use crate::decode::Decode;
use crate::decode::fails_with;
use crate::decode::optional;
use crate::decode::optional_field;
use crate::decode::required;
use crate::decode::required_field;
use crate::error::Error;
use crate::error::Shape;
use crate::ident::ChannelId;
use crate::ident::GuildId;
use crate::ident::UserId;
use crate::keyed::Keyed;
use crate::kinds::ConnectionType;
use crate::kinds::NotificationLevel;
use crate::kinds::OnlineStatus;
use crate::kinds::RelationshipType;
use crate::records::guild::Integration;
use crate::records::guild::IntegrationModel;
use crate::scalar::Discriminator;
use crate::value::Value;
use vstd::prelude::*;

verus! {

/// A user.
#[derive(Clone, Debug, PartialEq, Eq)]
pub struct User {
    /// The id of the user.
    pub id: UserId,
    /// The hash of the avatar, if the user has set one.
    pub avatar: Option<String>,
    /// Whether the account is a bot. Where the field is absent, this is `false`.
    pub bot: bool,
    /// The discriminator, which tells apart users of one name.
    pub discriminator: String,
    /// The name of the account. On the wire the field is called `username`.
    pub name: String,
}

/// The model of a user: what the record holds, as a mathematical value.
pub struct UserModel {
    pub id: UserId,
    pub avatar: Option<Seq<char>>,
    pub bot: bool,
    pub discriminator: Seq<char>,
    pub name: Seq<char>,
}

impl DeepView for User {
    type V = UserModel;

    open spec fn deep_view(&self) -> UserModel {
        UserModel {
            id: self.id.deep_view(),
            avatar: self.avatar.deep_view(),
            bot: self.bot.deep_view(),
            discriminator: self.discriminator.deep_view(),
            name: self.name.deep_view(),
        }
    }
}

impl User {
    /// What a mapping with the contents `source` gives as a user: the record put together from
    /// its fields, or the error of the first field, in the order written here, that fails.
    pub open spec fn from_fields(source: Map<Seq<char>, Value>) -> Result<UserModel, Error> {
        let id = required_field::<UserId>(source, "id");
        let avatar = optional_field::<String>(source, "avatar");
        let bot = optional_field::<bool>(source, "bot");
        let discriminator = required_field::<String>(source, "discriminator");
        let name = required_field::<String>(source, "username");
        if id is Err {
            Err(id->Err_0)
        } else if avatar is Err {
            Err(avatar->Err_0)
        } else if bot is Err {
            Err(bot->Err_0)
        } else if discriminator is Err {
            Err(discriminator->Err_0)
        } else if name is Err {
            Err(name->Err_0)
        } else {
            Ok(
                UserModel {
                    id: id->Ok_0,
                    avatar: avatar->Ok_0,
                    bot: match bot->Ok_0 {
                        Some(given) => given,
                        None => false,
                    },
                    discriminator: discriminator->Ok_0,
                    name: name->Ok_0,
                },
            )
        }
    }

    /// What tells the field names of a user apart: their lengths and, among names of one
    /// length, their letters.
    pub proof fn lemma_field_names()
        ensures
            "id"@.len() == 2,
            "avatar"@.len() == 6,
            "bot"@.len() == 3,
            "discriminator"@.len() == 13,
            "username"@.len() == 8,
    {
        reveal_strlit("id");
        reveal_strlit("avatar");
        reveal_strlit("bot");
        reveal_strlit("discriminator");
        reveal_strlit("username");
    }

    /// A mapping that holds the required fields of a user and no other, each with a value that
    /// decodes, is decoded.
    pub proof fn lemma_minimal_decodes(source: Map<Seq<char>, Value>)
        requires
            source.dom() =~= set!["id"@, "discriminator"@, "username"@],
            UserId::decoded(source["id"@]) is Ok,
            String::decoded(source["discriminator"@]) is Ok,
            String::decoded(source["username"@]) is Ok,
        ensures
            User::from_fields(source) is Ok,
    {
        User::lemma_field_names();
    }

    /// Without one of its required fields, a mapping that was decoded as a user fails, and the
    /// error names exactly the field that is gone.
    pub proof fn lemma_missing_required_field(source: Map<Seq<char>, Value>)
        requires
            User::from_fields(source) is Ok,
        ensures
            fails_with(
                User::from_fields(source.remove("id"@)),
                Error::MissingField("id"),
            ),
            fails_with(
                User::from_fields(source.remove("discriminator"@)),
                Error::MissingField("discriminator"),
            ),
            fails_with(
                User::from_fields(source.remove("username"@)),
                Error::MissingField("username"),
            ),
    {
        User::lemma_field_names();
    }

    /// A field that a user does not have changes nothing: it is passed over, whatever it holds.
    pub proof fn lemma_unknown_field_ignored(
        source: Map<Seq<char>, Value>,
        key: Seq<char>,
        value: Value,
    )
        requires
            key != "id"@,
            key != "avatar"@,
            key != "bot"@,
            key != "discriminator"@,
            key != "username"@,
        ensures
            User::from_fields(source.insert(key, value)) == User::from_fields(source),
    {
    }

    /// An optional field of a user that is absent is decoded as absent, or as its default. One
    /// that is present with a value of the wrong shape is not taken for absent: the record
    /// fails with that mismatch, which names the field.
    pub proof fn lemma_optional_fields(
        source: Map<Seq<char>, Value>,
        wrong: Value,
        expected: Shape,
    )
        requires
            User::from_fields(source) is Ok,
        ensures
            !source.contains_key("avatar"@) ==> User::from_fields(source)->Ok_0.avatar is None,
            fails_with(String::decoded(wrong), Error::mismatch(expected)) ==> fails_with(
                User::from_fields(source.insert("avatar"@, wrong)),
                Error::TypeMismatch(expected, Some("avatar")),
            ),
            !source.contains_key("bot"@) ==> User::from_fields(source)->Ok_0.bot == false,
            fails_with(bool::decoded(wrong), Error::mismatch(expected)) ==> fails_with(
                User::from_fields(source.insert("bot"@, wrong)),
                Error::TypeMismatch(expected, Some("bot")),
            ),
    {
        User::lemma_field_names();
    }
}

impl Decode for User {
    open spec fn decoded(value: Value) -> Result<UserModel, Error> {
        match value {
            Value::Mapping(source) => User::from_fields(source@),
            _ => Err(Error::mismatch(Shape::Mapping)),
        }
    }

    fn decode(value: Value) -> (r: Result<User, Error>) {
        let mut source = expect_map(value)?;
        proof {
            User::lemma_field_names();
        }
        let id = required::<UserId>(&mut source, "id")?;
        let avatar = optional::<String>(&mut source, "avatar")?;
        let bot = optional::<bool>(&mut source, "bot")?;
        let discriminator = required::<String>(&mut source, "discriminator")?;
        let name = required::<String>(&mut source, "username")?;
        Ok(
            User {
                id,
                avatar,
                bot: match bot {
                    Some(given) => given,
                    None => false,
                },
                discriminator,
                name,
            },
        )
    }
}

impl Keyed for User {
    open spec fn key_of(model: UserModel) -> u64 {
        model.id.0
    }

    fn key(&self) -> (r: u64) {
        self.id.0
    }
}

/// The user of the session.
#[derive(Clone, Debug, PartialEq, Eq)]
pub struct CurrentUser {
    /// The id of the user.
    pub id: UserId,
    /// The hash of the avatar, if the user has set one.
    pub avatar: Option<String>,
    /// Whether the account is a bot. Where the field is absent, this is `false`.
    pub bot: bool,
    /// The discriminator, which tells apart users of one name.
    pub discriminator: Discriminator,
    /// The e-mail address of the account, if it is known.
    pub email: Option<String>,
    /// Whether the account asks for a second factor at login.
    pub mfa_enabled: bool,
    /// Whether the user has logged in from a mobile device before, if that is known.
    pub mobile: Option<bool>,
    /// The name of the account. On the wire the field is called `username`.
    pub name: String,
    /// Whether the e-mail address has been verified.
    pub verified: bool,
}

/// The model of the current user: what the record holds, as a mathematical value.
pub struct CurrentUserModel {
    pub id: UserId,
    pub avatar: Option<Seq<char>>,
    pub bot: bool,
    pub discriminator: Discriminator,
    pub email: Option<Seq<char>>,
    pub mfa_enabled: bool,
    pub mobile: Option<bool>,
    pub name: Seq<char>,
    pub verified: bool,
}

impl DeepView for CurrentUser {
    type V = CurrentUserModel;

    open spec fn deep_view(&self) -> CurrentUserModel {
        CurrentUserModel {
            id: self.id.deep_view(),
            avatar: self.avatar.deep_view(),
            bot: self.bot.deep_view(),
            discriminator: self.discriminator.deep_view(),
            email: self.email.deep_view(),
            mfa_enabled: self.mfa_enabled.deep_view(),
            mobile: self.mobile.deep_view(),
            name: self.name.deep_view(),
            verified: self.verified.deep_view(),
        }
    }
}

impl CurrentUser {
    /// What a mapping with the contents `source` gives as the current user: the record put
    /// together from its fields, or the error of the first field, in the order written here,
    /// that fails.
    pub open spec fn from_fields(source: Map<Seq<char>, Value>) -> Result<CurrentUserModel, Error> {
        let id = required_field::<UserId>(source, "id");
        let avatar = optional_field::<String>(source, "avatar");
        let bot = optional_field::<bool>(source, "bot");
        let discriminator = required_field::<Discriminator>(source, "discriminator");
        let email = optional_field::<String>(source, "email");
        let mfa_enabled = required_field::<bool>(source, "mfa_enabled");
        let mobile = optional_field::<bool>(source, "mobile");
        let name = required_field::<String>(source, "username");
        let verified = required_field::<bool>(source, "verified");
        if id is Err {
            Err(id->Err_0)
        } else if avatar is Err {
            Err(avatar->Err_0)
        } else if bot is Err {
            Err(bot->Err_0)
        } else if discriminator is Err {
            Err(discriminator->Err_0)
        } else if email is Err {
            Err(email->Err_0)
        } else if mfa_enabled is Err {
            Err(mfa_enabled->Err_0)
        } else if mobile is Err {
            Err(mobile->Err_0)
        } else if name is Err {
            Err(name->Err_0)
        } else if verified is Err {
            Err(verified->Err_0)
        } else {
            Ok(
                CurrentUserModel {
                    id: id->Ok_0,
                    avatar: avatar->Ok_0,
                    bot: match bot->Ok_0 {
                        Some(given) => given,
                        None => false,
                    },
                    discriminator: discriminator->Ok_0,
                    email: email->Ok_0,
                    mfa_enabled: mfa_enabled->Ok_0,
                    mobile: mobile->Ok_0,
                    name: name->Ok_0,
                    verified: verified->Ok_0,
                },
            )
        }
    }

    /// What tells the field names of the current user apart: their lengths and, among names of
    /// one length, their letters.
    pub proof fn lemma_field_names()
        ensures
            "id"@.len() == 2,
            "avatar"@.len() == 6,
            "bot"@.len() == 3,
            "discriminator"@.len() == 13,
            "email"@.len() == 5,
            "mfa_enabled"@.len() == 11,
            "mobile"@.len() == 6,
            "username"@.len() == 8,
            "verified"@.len() == 8,
            "avatar"@[0] == 'a',
            "mobile"@[0] == 'm',
            "username"@[0] == 'u',
            "verified"@[0] == 'v',
    {
        reveal_strlit("id");
        reveal_strlit("avatar");
        reveal_strlit("bot");
        reveal_strlit("discriminator");
        reveal_strlit("email");
        reveal_strlit("mfa_enabled");
        reveal_strlit("mobile");
        reveal_strlit("username");
        reveal_strlit("verified");
    }

    /// A mapping that holds the required fields of the current user and no other, each with a
    /// value that decodes, is decoded.
    pub proof fn lemma_minimal_decodes(source: Map<Seq<char>, Value>)
        requires
            source.dom() =~= set![
                "id"@,
                "discriminator"@,
                "mfa_enabled"@,
                "username"@,
                "verified"@,
            ],
            UserId::decoded(source["id"@]) is Ok,
            Discriminator::decoded(source["discriminator"@]) is Ok,
            bool::decoded(source["mfa_enabled"@]) is Ok,
            String::decoded(source["username"@]) is Ok,
            bool::decoded(source["verified"@]) is Ok,
        ensures
            CurrentUser::from_fields(source) is Ok,
    {
        CurrentUser::lemma_field_names();
    }

    /// Without one of its required fields, a mapping that was decoded as the current user
    /// fails, and the error names exactly the field that is gone.
    pub proof fn lemma_missing_required_field(source: Map<Seq<char>, Value>)
        requires
            CurrentUser::from_fields(source) is Ok,
        ensures
            fails_with(
                CurrentUser::from_fields(source.remove("id"@)),
                Error::MissingField("id"),
            ),
            fails_with(
                CurrentUser::from_fields(source.remove("discriminator"@)),
                Error::MissingField("discriminator"),
            ),
            fails_with(
                CurrentUser::from_fields(source.remove("mfa_enabled"@)),
                Error::MissingField("mfa_enabled"),
            ),
            fails_with(
                CurrentUser::from_fields(source.remove("username"@)),
                Error::MissingField("username"),
            ),
            fails_with(
                CurrentUser::from_fields(source.remove("verified"@)),
                Error::MissingField("verified"),
            ),
    {
        CurrentUser::lemma_field_names();
    }

    /// A field that the current user does not have changes nothing: it is passed over, whatever
    /// it holds.
    pub proof fn lemma_unknown_field_ignored(
        source: Map<Seq<char>, Value>,
        key: Seq<char>,
        value: Value,
    )
        requires
            key != "id"@,
            key != "avatar"@,
            key != "bot"@,
            key != "discriminator"@,
            key != "email"@,
            key != "mfa_enabled"@,
            key != "mobile"@,
            key != "username"@,
            key != "verified"@,
        ensures
            CurrentUser::from_fields(source.insert(key, value)) == CurrentUser::from_fields(source),
    {
    }

    /// An optional field of the current user that is absent is decoded as absent, or as its
    /// default. One that is present with a value of the wrong shape is not taken for absent:
    /// the record fails with that mismatch, which names the field.
    pub proof fn lemma_optional_fields(
        source: Map<Seq<char>, Value>,
        wrong: Value,
        expected: Shape,
    )
        requires
            CurrentUser::from_fields(source) is Ok,
        ensures
            !source.contains_key("avatar"@)
                ==> CurrentUser::from_fields(source)->Ok_0.avatar is None,
            fails_with(String::decoded(wrong), Error::mismatch(expected)) ==> fails_with(
                CurrentUser::from_fields(source.insert("avatar"@, wrong)),
                Error::TypeMismatch(expected, Some("avatar")),
            ),
            !source.contains_key("bot"@) ==> CurrentUser::from_fields(source)->Ok_0.bot == false,
            fails_with(bool::decoded(wrong), Error::mismatch(expected)) ==> fails_with(
                CurrentUser::from_fields(source.insert("bot"@, wrong)),
                Error::TypeMismatch(expected, Some("bot")),
            ),
            !source.contains_key("email"@) ==> CurrentUser::from_fields(source)->Ok_0.email is None,
            fails_with(String::decoded(wrong), Error::mismatch(expected)) ==> fails_with(
                CurrentUser::from_fields(source.insert("email"@, wrong)),
                Error::TypeMismatch(expected, Some("email")),
            ),
            !source.contains_key("mobile"@)
                ==> CurrentUser::from_fields(source)->Ok_0.mobile is None,
            fails_with(bool::decoded(wrong), Error::mismatch(expected)) ==> fails_with(
                CurrentUser::from_fields(source.insert("mobile"@, wrong)),
                Error::TypeMismatch(expected, Some("mobile")),
            ),
    {
        CurrentUser::lemma_field_names();
    }
}

impl Decode for CurrentUser {
    open spec fn decoded(value: Value) -> Result<CurrentUserModel, Error> {
        match value {
            Value::Mapping(source) => CurrentUser::from_fields(source@),
            _ => Err(Error::mismatch(Shape::Mapping)),
        }
    }

    fn decode(value: Value) -> (r: Result<CurrentUser, Error>) {
        let mut source = expect_map(value)?;
        proof {
            CurrentUser::lemma_field_names();
        }
        let id = required::<UserId>(&mut source, "id")?;
        let avatar = optional::<String>(&mut source, "avatar")?;
        let bot = optional::<bool>(&mut source, "bot")?;
        let discriminator = required::<Discriminator>(&mut source, "discriminator")?;
        let email = optional::<String>(&mut source, "email")?;
        let mfa_enabled = required::<bool>(&mut source, "mfa_enabled")?;
        let mobile = optional::<bool>(&mut source, "mobile")?;
        let name = required::<String>(&mut source, "username")?;
        let verified = required::<bool>(&mut source, "verified")?;
        Ok(
            CurrentUser {
                id,
                avatar,
                bot: match bot {
                    Some(given) => given,
                    None => false,
                },
                discriminator,
                email,
                mfa_enabled,
                mobile,
                name,
                verified,
            },
        )
    }
}

/// The relationship of the current user with another user.
#[derive(Clone, Debug, PartialEq, Eq)]
pub struct Relationship {
    /// The id of the other user.
    pub id: UserId,
    /// What the two users are to each other. On the wire the field is called `type`.
    pub kind: RelationshipType,
    /// The other user.
    pub user: User,
}

/// The model of a relationship: what the record holds, as a mathematical value.
pub struct RelationshipModel {
    pub id: UserId,
    pub kind: RelationshipType,
    pub user: UserModel,
}

impl DeepView for Relationship {
    type V = RelationshipModel;

    open spec fn deep_view(&self) -> RelationshipModel {
        RelationshipModel {
            id: self.id.deep_view(),
            kind: self.kind.deep_view(),
            user: self.user.deep_view(),
        }
    }
}

impl Relationship {
    /// What a mapping with the contents `source` gives as a relationship: the record put
    /// together from its fields, or the error of the first field, in the order written here,
    /// that fails.
    pub open spec fn from_fields(source: Map<Seq<char>, Value>) -> Result<
        RelationshipModel,
        Error,
    > {
        let id = required_field::<UserId>(source, "id");
        let kind = required_field::<Numbered<RelationshipType>>(source, "type");
        let user = required_field::<User>(source, "user");
        if id is Err {
            Err(id->Err_0)
        } else if kind is Err {
            Err(kind->Err_0)
        } else if user is Err {
            Err(user->Err_0)
        } else {
            Ok(
                RelationshipModel {
                    id: id->Ok_0,
                    kind: kind->Ok_0,
                    user: user->Ok_0,
                },
            )
        }
    }

    /// What tells the field names of a relationship apart: their lengths and, among names of
    /// one length, their letters.
    pub proof fn lemma_field_names()
        ensures
            "id"@.len() == 2,
            "type"@.len() == 4,
            "user"@.len() == 4,
            "type"@[0] == 't',
            "user"@[0] == 'u',
    {
        reveal_strlit("id");
        reveal_strlit("type");
        reveal_strlit("user");
    }

    /// A mapping that holds the required fields of a relationship and no other, each with a
    /// value that decodes, is decoded.
    pub proof fn lemma_minimal_decodes(source: Map<Seq<char>, Value>)
        requires
            source.dom() =~= set!["id"@, "type"@, "user"@],
            UserId::decoded(source["id"@]) is Ok,
            <Numbered<RelationshipType>>::decoded(source["type"@]) is Ok,
            User::decoded(source["user"@]) is Ok,
        ensures
            Relationship::from_fields(source) is Ok,
    {
        Relationship::lemma_field_names();
    }

    /// Without one of its required fields, a mapping that was decoded as a relationship fails,
    /// and the error names exactly the field that is gone.
    pub proof fn lemma_missing_required_field(source: Map<Seq<char>, Value>)
        requires
            Relationship::from_fields(source) is Ok,
        ensures
            fails_with(
                Relationship::from_fields(source.remove("id"@)),
                Error::MissingField("id"),
            ),
            fails_with(
                Relationship::from_fields(source.remove("type"@)),
                Error::MissingField("type"),
            ),
            fails_with(
                Relationship::from_fields(source.remove("user"@)),
                Error::MissingField("user"),
            ),
    {
        Relationship::lemma_field_names();
    }

    /// A field that a relationship does not have changes nothing: it is passed over, whatever
    /// it holds.
    pub proof fn lemma_unknown_field_ignored(
        source: Map<Seq<char>, Value>,
        key: Seq<char>,
        value: Value,
    )
        requires
            key != "id"@,
            key != "type"@,
            key != "user"@,
        ensures
            Relationship::from_fields(source.insert(key, value))
                == Relationship::from_fields(source),
    {
    }
}

impl Decode for Relationship {
    open spec fn decoded(value: Value) -> Result<RelationshipModel, Error> {
        match value {
            Value::Mapping(source) => Relationship::from_fields(source@),
            _ => Err(Error::mismatch(Shape::Mapping)),
        }
    }

    fn decode(value: Value) -> (r: Result<Relationship, Error>) {
        let mut source = expect_map(value)?;
        proof {
            Relationship::lemma_field_names();
        }
        let id = required::<UserId>(&mut source, "id")?;
        let kind = required::<Numbered<RelationshipType>>(&mut source, "type")?;
        let user = required::<User>(&mut source, "user")?;
        Ok(
            Relationship {
                id,
                kind: kind.0,
                user,
            },
        )
    }
}

impl Keyed for Relationship {
    open spec fn key_of(model: RelationshipModel) -> u64 {
        model.id.0
    }

    fn key(&self) -> (r: u64) {
        self.id.0
    }
}

/// Why a user was suggested as a friend.
#[derive(Clone, Debug, PartialEq, Eq)]
pub struct SuggestionReason {
    /// The name of the user on the shared service.
    pub name: String,
    /// The service that both users are connected to.
    pub platform: ConnectionType,
    /// The kind of reason.
    pub kind: u64,
}

/// The model of a suggestion reason: what the record holds, as a mathematical value.
pub struct SuggestionReasonModel {
    pub name: Seq<char>,
    pub platform: ConnectionType,
    pub kind: u64,
}

impl DeepView for SuggestionReason {
    type V = SuggestionReasonModel;

    open spec fn deep_view(&self) -> SuggestionReasonModel {
        SuggestionReasonModel {
            name: self.name.deep_view(),
            platform: self.platform.deep_view(),
            kind: self.kind.deep_view(),
        }
    }
}

impl SuggestionReason {
    /// What a mapping with the contents `source` gives as a suggestion reason: the record put
    /// together from its fields, or the error of the first field, in the order written here,
    /// that fails.
    pub open spec fn from_fields(source: Map<Seq<char>, Value>) -> Result<
        SuggestionReasonModel,
        Error,
    > {
        let name = required_field::<String>(source, "name");
        let platform = required_field::<Named<ConnectionType>>(source, "platform");
        let kind = required_field::<u64>(source, "kind");
        if name is Err {
            Err(name->Err_0)
        } else if platform is Err {
            Err(platform->Err_0)
        } else if kind is Err {
            Err(kind->Err_0)
        } else {
            Ok(
                SuggestionReasonModel {
                    name: name->Ok_0,
                    platform: platform->Ok_0,
                    kind: kind->Ok_0,
                },
            )
        }
    }

    /// What tells the field names of a suggestion reason apart: their lengths and, among names
    /// of one length, their letters.
    pub proof fn lemma_field_names()
        ensures
            "name"@.len() == 4,
            "platform"@.len() == 8,
            "kind"@.len() == 4,
            "name"@[0] == 'n',
            "kind"@[0] == 'k',
    {
        reveal_strlit("name");
        reveal_strlit("platform");
        reveal_strlit("kind");
    }

    /// A mapping that holds the required fields of a suggestion reason and no other, each with
    /// a value that decodes, is decoded.
    pub proof fn lemma_minimal_decodes(source: Map<Seq<char>, Value>)
        requires
            source.dom() =~= set!["name"@, "platform"@, "kind"@],
            String::decoded(source["name"@]) is Ok,
            <Named<ConnectionType>>::decoded(source["platform"@]) is Ok,
            u64::decoded(source["kind"@]) is Ok,
        ensures
            SuggestionReason::from_fields(source) is Ok,
    {
        SuggestionReason::lemma_field_names();
    }

    /// Without one of its required fields, a mapping that was decoded as a suggestion reason
    /// fails, and the error names exactly the field that is gone.
    pub proof fn lemma_missing_required_field(source: Map<Seq<char>, Value>)
        requires
            SuggestionReason::from_fields(source) is Ok,
        ensures
            fails_with(
                SuggestionReason::from_fields(source.remove("name"@)),
                Error::MissingField("name"),
            ),
            fails_with(
                SuggestionReason::from_fields(source.remove("platform"@)),
                Error::MissingField("platform"),
            ),
            fails_with(
                SuggestionReason::from_fields(source.remove("kind"@)),
                Error::MissingField("kind"),
            ),
    {
        SuggestionReason::lemma_field_names();
    }

    /// A field that a suggestion reason does not have changes nothing: it is passed over,
    /// whatever it holds.
    pub proof fn lemma_unknown_field_ignored(
        source: Map<Seq<char>, Value>,
        key: Seq<char>,
        value: Value,
    )
        requires
            key != "name"@,
            key != "platform"@,
            key != "kind"@,
        ensures
            SuggestionReason::from_fields(source.insert(key, value))
                == SuggestionReason::from_fields(source),
    {
    }
}

impl Decode for SuggestionReason {
    open spec fn decoded(value: Value) -> Result<SuggestionReasonModel, Error> {
        match value {
            Value::Mapping(source) => SuggestionReason::from_fields(source@),
            _ => Err(Error::mismatch(Shape::Mapping)),
        }
    }

    fn decode(value: Value) -> (r: Result<SuggestionReason, Error>) {
        let mut source = expect_map(value)?;
        proof {
            SuggestionReason::lemma_field_names();
        }
        let name = required::<String>(&mut source, "name")?;
        let platform = required::<Named<ConnectionType>>(&mut source, "platform")?;
        let kind = required::<u64>(&mut source, "kind")?;
        Ok(
            SuggestionReason {
                name,
                platform: platform.0,
                kind,
            },
        )
    }
}

/// Who may ask the current user to be friends.
#[derive(Clone, Debug, PartialEq, Eq)]
pub struct FriendSourceFlags {
    /// Whether anyone may ask. Where the field is absent, this is `false`.
    pub all: bool,
    /// Whether friends of friends may ask. Where the field is absent, this is `false`.
    pub mutual_friends: bool,
    /// Whether members of shared guilds may ask. Where the field is absent, this is `false`.
    pub mutual_guilds: bool,
}

/// The model of friend source flags: what the record holds, as a mathematical value.
pub struct FriendSourceFlagsModel {
    pub all: bool,
    pub mutual_friends: bool,
    pub mutual_guilds: bool,
}

impl DeepView for FriendSourceFlags {
    type V = FriendSourceFlagsModel;

    open spec fn deep_view(&self) -> FriendSourceFlagsModel {
        FriendSourceFlagsModel {
            all: self.all.deep_view(),
            mutual_friends: self.mutual_friends.deep_view(),
            mutual_guilds: self.mutual_guilds.deep_view(),
        }
    }
}

impl FriendSourceFlags {
    /// What a mapping with the contents `source` gives as friend source flags: the record put
    /// together from its fields, or the error of the first field, in the order written here,
    /// that fails.
    pub open spec fn from_fields(source: Map<Seq<char>, Value>) -> Result<
        FriendSourceFlagsModel,
        Error,
    > {
        let all = optional_field::<bool>(source, "all");
        let mutual_friends = optional_field::<bool>(source, "mutual_friends");
        let mutual_guilds = optional_field::<bool>(source, "mutual_guilds");
        if all is Err {
            Err(all->Err_0)
        } else if mutual_friends is Err {
            Err(mutual_friends->Err_0)
        } else if mutual_guilds is Err {
            Err(mutual_guilds->Err_0)
        } else {
            Ok(
                FriendSourceFlagsModel {
                    all: match all->Ok_0 {
                        Some(given) => given,
                        None => false,
                    },
                    mutual_friends: match mutual_friends->Ok_0 {
                        Some(given) => given,
                        None => false,
                    },
                    mutual_guilds: match mutual_guilds->Ok_0 {
                        Some(given) => given,
                        None => false,
                    },
                },
            )
        }
    }

    /// What tells the field names of friend source flags apart: their lengths and, among names
    /// of one length, their letters.
    pub proof fn lemma_field_names()
        ensures
            "all"@.len() == 3,
            "mutual_friends"@.len() == 14,
            "mutual_guilds"@.len() == 13,
    {
        reveal_strlit("all");
        reveal_strlit("mutual_friends");
        reveal_strlit("mutual_guilds");
    }

    /// A mapping that holds the required fields of friend source flags and no other, each with
    /// a value that decodes, is decoded.
    pub proof fn lemma_minimal_decodes(source: Map<Seq<char>, Value>)
        requires
            source.dom() =~= Set::<Seq<char>>::empty(),
        ensures
            FriendSourceFlags::from_fields(source) is Ok,
    {
        FriendSourceFlags::lemma_field_names();
    }

    /// A field that friend source flags does not have changes nothing: it is passed over,
    /// whatever it holds.
    pub proof fn lemma_unknown_field_ignored(
        source: Map<Seq<char>, Value>,
        key: Seq<char>,
        value: Value,
    )
        requires
            key != "all"@,
            key != "mutual_friends"@,
            key != "mutual_guilds"@,
        ensures
            FriendSourceFlags::from_fields(source.insert(key, value))
                == FriendSourceFlags::from_fields(source),
    {
    }

    /// An optional field of friend source flags that is absent is decoded as absent, or as its
    /// default. One that is present with a value of the wrong shape is not taken for absent:
    /// the record fails with that mismatch, which names the field.
    pub proof fn lemma_optional_fields(
        source: Map<Seq<char>, Value>,
        wrong: Value,
        expected: Shape,
    )
        requires
            FriendSourceFlags::from_fields(source) is Ok,
        ensures
            !source.contains_key("all"@)
                ==> FriendSourceFlags::from_fields(source)->Ok_0.all == false,
            fails_with(bool::decoded(wrong), Error::mismatch(expected)) ==> fails_with(
                FriendSourceFlags::from_fields(source.insert("all"@, wrong)),
                Error::TypeMismatch(expected, Some("all")),
            ),
            !source.contains_key("mutual_friends"@)
                ==> FriendSourceFlags::from_fields(source)->Ok_0.mutual_friends == false,
            fails_with(bool::decoded(wrong), Error::mismatch(expected)) ==> fails_with(
                FriendSourceFlags::from_fields(source.insert("mutual_friends"@, wrong)),
                Error::TypeMismatch(expected, Some("mutual_friends")),
            ),
            !source.contains_key("mutual_guilds"@)
                ==> FriendSourceFlags::from_fields(source)->Ok_0.mutual_guilds == false,
            fails_with(bool::decoded(wrong), Error::mismatch(expected)) ==> fails_with(
                FriendSourceFlags::from_fields(source.insert("mutual_guilds"@, wrong)),
                Error::TypeMismatch(expected, Some("mutual_guilds")),
            ),
    {
        FriendSourceFlags::lemma_field_names();
    }
}

impl Decode for FriendSourceFlags {
    open spec fn decoded(value: Value) -> Result<FriendSourceFlagsModel, Error> {
        match value {
            Value::Mapping(source) => FriendSourceFlags::from_fields(source@),
            _ => Err(Error::mismatch(Shape::Mapping)),
        }
    }

    fn decode(value: Value) -> (r: Result<FriendSourceFlags, Error>) {
        let mut source = expect_map(value)?;
        proof {
            FriendSourceFlags::lemma_field_names();
        }
        let all = optional::<bool>(&mut source, "all")?;
        let mutual_friends = optional::<bool>(&mut source, "mutual_friends")?;
        let mutual_guilds = optional::<bool>(&mut source, "mutual_guilds")?;
        Ok(
            FriendSourceFlags {
                all: match all {
                    Some(given) => given,
                    None => false,
                },
                mutual_friends: match mutual_friends {
                    Some(given) => given,
                    None => false,
                },
                mutual_guilds: match mutual_guilds {
                    Some(given) => given,
                    None => false,
                },
            },
        )
    }
}

/// The notification settings of the current user for one channel.
#[derive(Clone, Debug, PartialEq, Eq)]
pub struct ChannelOverride {
    /// The channel that the settings are for.
    pub channel_id: ChannelId,
    /// Which messages of the channel notify the user.
    pub message_notifications: NotificationLevel,
    /// Whether the channel is muted.
    pub muted: bool,
}

/// The model of a channel override: what the record holds, as a mathematical value.
pub struct ChannelOverrideModel {
    pub channel_id: ChannelId,
    pub message_notifications: NotificationLevel,
    pub muted: bool,
}

impl DeepView for ChannelOverride {
    type V = ChannelOverrideModel;

    open spec fn deep_view(&self) -> ChannelOverrideModel {
        ChannelOverrideModel {
            channel_id: self.channel_id.deep_view(),
            message_notifications: self.message_notifications.deep_view(),
            muted: self.muted.deep_view(),
        }
    }
}

impl ChannelOverride {
    /// What a mapping with the contents `source` gives as a channel override: the record put
    /// together from its fields, or the error of the first field, in the order written here,
    /// that fails.
    pub open spec fn from_fields(source: Map<Seq<char>, Value>) -> Result<
        ChannelOverrideModel,
        Error,
    > {
        let channel_id = required_field::<ChannelId>(source, "channel_id");
        let message_notifications = required_field::<Numbered<NotificationLevel>>(
            source,
            "message_notifications",
        );
        let muted = required_field::<bool>(source, "muted");
        if channel_id is Err {
            Err(channel_id->Err_0)
        } else if message_notifications is Err {
            Err(message_notifications->Err_0)
        } else if muted is Err {
            Err(muted->Err_0)
        } else {
            Ok(
                ChannelOverrideModel {
                    channel_id: channel_id->Ok_0,
                    message_notifications: message_notifications->Ok_0,
                    muted: muted->Ok_0,
                },
            )
        }
    }

    /// What tells the field names of a channel override apart: their lengths and, among names
    /// of one length, their letters.
    pub proof fn lemma_field_names()
        ensures
            "channel_id"@.len() == 10,
            "message_notifications"@.len() == 21,
            "muted"@.len() == 5,
    {
        reveal_strlit("channel_id");
        reveal_strlit("message_notifications");
        reveal_strlit("muted");
    }

    /// A mapping that holds the required fields of a channel override and no other, each with a
    /// value that decodes, is decoded.
    pub proof fn lemma_minimal_decodes(source: Map<Seq<char>, Value>)
        requires
            source.dom() =~= set!["channel_id"@, "message_notifications"@, "muted"@],
            ChannelId::decoded(source["channel_id"@]) is Ok,
            <Numbered<NotificationLevel>>::decoded(source["message_notifications"@]) is Ok,
            bool::decoded(source["muted"@]) is Ok,
        ensures
            ChannelOverride::from_fields(source) is Ok,
    {
        ChannelOverride::lemma_field_names();
    }

    /// Without one of its required fields, a mapping that was decoded as a channel override
    /// fails, and the error names exactly the field that is gone.
    pub proof fn lemma_missing_required_field(source: Map<Seq<char>, Value>)
        requires
            ChannelOverride::from_fields(source) is Ok,
        ensures
            fails_with(
                ChannelOverride::from_fields(source.remove("channel_id"@)),
                Error::MissingField("channel_id"),
            ),
            fails_with(
                ChannelOverride::from_fields(source.remove("message_notifications"@)),
                Error::MissingField("message_notifications"),
            ),
            fails_with(
                ChannelOverride::from_fields(source.remove("muted"@)),
                Error::MissingField("muted"),
            ),
    {
        ChannelOverride::lemma_field_names();
    }

    /// A field that a channel override does not have changes nothing: it is passed over,
    /// whatever it holds.
    pub proof fn lemma_unknown_field_ignored(
        source: Map<Seq<char>, Value>,
        key: Seq<char>,
        value: Value,
    )
        requires
            key != "channel_id"@,
            key != "message_notifications"@,
            key != "muted"@,
        ensures
            ChannelOverride::from_fields(source.insert(key, value))
                == ChannelOverride::from_fields(source),
    {
    }
}

impl Decode for ChannelOverride {
    open spec fn decoded(value: Value) -> Result<ChannelOverrideModel, Error> {
        match value {
            Value::Mapping(source) => ChannelOverride::from_fields(source@),
            _ => Err(Error::mismatch(Shape::Mapping)),
        }
    }

    fn decode(value: Value) -> (r: Result<ChannelOverride, Error>) {
        let mut source = expect_map(value)?;
        proof {
            ChannelOverride::lemma_field_names();
        }
        let channel_id = required::<ChannelId>(&mut source, "channel_id")?;
        let message_notifications = required::<Numbered<NotificationLevel>>(
            &mut source,
            "message_notifications",
        )?;
        let muted = required::<bool>(&mut source, "muted")?;
        Ok(
            ChannelOverride {
                channel_id,
                message_notifications: message_notifications.0,
                muted,
            },
        )
    }
}

/// The notification settings of the current user for one guild.
#[derive(Clone, Debug, PartialEq, Eq)]
pub struct UserGuildSettings {
    /// The settings for single channels of the guild.
    pub channel_overrides: Vec<ChannelOverride>,
    /// The guild that the settings are for; absent for private channels.
    pub guild_id: Option<GuildId>,
    /// Which messages of the guild notify the user.
    pub message_notifications: NotificationLevel,
    /// Whether notifications are pushed to mobile devices.
    pub mobile_push: bool,
    /// Whether the guild is muted.
    pub muted: bool,
    /// Whether mentions of everyone are left out.
    pub suppress_everyone: bool,
}

/// The model of the guild settings of a user: what the record holds, as a mathematical value.
pub struct UserGuildSettingsModel {
    pub channel_overrides: Seq<ChannelOverrideModel>,
    pub guild_id: Option<GuildId>,
    pub message_notifications: NotificationLevel,
    pub mobile_push: bool,
    pub muted: bool,
    pub suppress_everyone: bool,
}

impl DeepView for UserGuildSettings {
    type V = UserGuildSettingsModel;

    open spec fn deep_view(&self) -> UserGuildSettingsModel {
        UserGuildSettingsModel {
            channel_overrides: self.channel_overrides.deep_view(),
            guild_id: self.guild_id.deep_view(),
            message_notifications: self.message_notifications.deep_view(),
            mobile_push: self.mobile_push.deep_view(),
            muted: self.muted.deep_view(),
            suppress_everyone: self.suppress_everyone.deep_view(),
        }
    }
}

impl UserGuildSettings {
    /// What a mapping with the contents `source` gives as the guild settings of a user: the
    /// record put together from its fields, or the error of the first field, in the order
    /// written here, that fails.
    pub open spec fn from_fields(source: Map<Seq<char>, Value>) -> Result<
        UserGuildSettingsModel,
        Error,
    > {
        let channel_overrides = required_field::<Vec<ChannelOverride>>(source, "channel_overrides");
        let guild_id = optional_field::<GuildId>(source, "guild_id");
        let message_notifications = required_field::<Numbered<NotificationLevel>>(
            source,
            "message_notifications",
        );
        let mobile_push = required_field::<bool>(source, "mobile_push");
        let muted = required_field::<bool>(source, "muted");
        let suppress_everyone = required_field::<bool>(source, "suppress_everyone");
        if channel_overrides is Err {
            Err(channel_overrides->Err_0)
        } else if guild_id is Err {
            Err(guild_id->Err_0)
        } else if message_notifications is Err {
            Err(message_notifications->Err_0)
        } else if mobile_push is Err {
            Err(mobile_push->Err_0)
        } else if muted is Err {
            Err(muted->Err_0)
        } else if suppress_everyone is Err {
            Err(suppress_everyone->Err_0)
        } else {
            Ok(
                UserGuildSettingsModel {
                    channel_overrides: channel_overrides->Ok_0,
                    guild_id: guild_id->Ok_0,
                    message_notifications: message_notifications->Ok_0,
                    mobile_push: mobile_push->Ok_0,
                    muted: muted->Ok_0,
                    suppress_everyone: suppress_everyone->Ok_0,
                },
            )
        }
    }

    /// What tells the field names of the guild settings of a user apart: their lengths and,
    /// among names of one length, their letters.
    pub proof fn lemma_field_names()
        ensures
            "channel_overrides"@.len() == 17,
            "guild_id"@.len() == 8,
            "message_notifications"@.len() == 21,
            "mobile_push"@.len() == 11,
            "muted"@.len() == 5,
            "suppress_everyone"@.len() == 17,
            "channel_overrides"@[0] == 'c',
            "suppress_everyone"@[0] == 's',
    {
        reveal_strlit("channel_overrides");
        reveal_strlit("guild_id");
        reveal_strlit("message_notifications");
        reveal_strlit("mobile_push");
        reveal_strlit("muted");
        reveal_strlit("suppress_everyone");
    }

    /// A mapping that holds the required fields of the guild settings of a user and no other,
    /// each with a value that decodes, is decoded.
    pub proof fn lemma_minimal_decodes(source: Map<Seq<char>, Value>)
        requires
            source.dom() =~= set![
                "channel_overrides"@,
                "message_notifications"@,
                "mobile_push"@,
                "muted"@,
                "suppress_everyone"@,
            ],
            <Vec<ChannelOverride>>::decoded(source["channel_overrides"@]) is Ok,
            <Numbered<NotificationLevel>>::decoded(source["message_notifications"@]) is Ok,
            bool::decoded(source["mobile_push"@]) is Ok,
            bool::decoded(source["muted"@]) is Ok,
            bool::decoded(source["suppress_everyone"@]) is Ok,
        ensures
            UserGuildSettings::from_fields(source) is Ok,
    {
        UserGuildSettings::lemma_field_names();
    }

    /// Without one of its required fields, a mapping that was decoded as the guild settings of
    /// a user fails, and the error names exactly the field that is gone.
    pub proof fn lemma_missing_required_field(source: Map<Seq<char>, Value>)
        requires
            UserGuildSettings::from_fields(source) is Ok,
        ensures
            fails_with(
                UserGuildSettings::from_fields(source.remove("channel_overrides"@)),
                Error::MissingField("channel_overrides"),
            ),
            fails_with(
                UserGuildSettings::from_fields(source.remove("message_notifications"@)),
                Error::MissingField("message_notifications"),
            ),
            fails_with(
                UserGuildSettings::from_fields(source.remove("mobile_push"@)),
                Error::MissingField("mobile_push"),
            ),
            fails_with(
                UserGuildSettings::from_fields(source.remove("muted"@)),
                Error::MissingField("muted"),
            ),
            fails_with(
                UserGuildSettings::from_fields(source.remove("suppress_everyone"@)),
                Error::MissingField("suppress_everyone"),
            ),
    {
        UserGuildSettings::lemma_field_names();
    }

    /// A field that the guild settings of a user does not have changes nothing: it is passed
    /// over, whatever it holds.
    pub proof fn lemma_unknown_field_ignored(
        source: Map<Seq<char>, Value>,
        key: Seq<char>,
        value: Value,
    )
        requires
            key != "channel_overrides"@,
            key != "guild_id"@,
            key != "message_notifications"@,
            key != "mobile_push"@,
            key != "muted"@,
            key != "suppress_everyone"@,
        ensures
            UserGuildSettings::from_fields(source.insert(key, value))
                == UserGuildSettings::from_fields(source),
    {
    }

    /// An optional field of the guild settings of a user that is absent is decoded as absent,
    /// or as its default. One that is present with a value of the wrong shape is not taken for
    /// absent: the record fails with that mismatch, which names the field.
    pub proof fn lemma_optional_fields(
        source: Map<Seq<char>, Value>,
        wrong: Value,
        expected: Shape,
    )
        requires
            UserGuildSettings::from_fields(source) is Ok,
        ensures
            !source.contains_key("guild_id"@)
                ==> UserGuildSettings::from_fields(source)->Ok_0.guild_id is None,
            fails_with(GuildId::decoded(wrong), Error::mismatch(expected)) ==> fails_with(
                UserGuildSettings::from_fields(source.insert("guild_id"@, wrong)),
                Error::TypeMismatch(expected, Some("guild_id")),
            ),
    {
        UserGuildSettings::lemma_field_names();
    }
}

impl Decode for UserGuildSettings {
    open spec fn decoded(value: Value) -> Result<UserGuildSettingsModel, Error> {
        match value {
            Value::Mapping(source) => UserGuildSettings::from_fields(source@),
            _ => Err(Error::mismatch(Shape::Mapping)),
        }
    }

    fn decode(value: Value) -> (r: Result<UserGuildSettings, Error>) {
        let mut source = expect_map(value)?;
        proof {
            UserGuildSettings::lemma_field_names();
        }
        let channel_overrides = required::<Vec<ChannelOverride>>(&mut source, "channel_overrides")?;
        let guild_id = optional::<GuildId>(&mut source, "guild_id")?;
        let message_notifications = required::<Numbered<NotificationLevel>>(
            &mut source,
            "message_notifications",
        )?;
        let mobile_push = required::<bool>(&mut source, "mobile_push")?;
        let muted = required::<bool>(&mut source, "muted")?;
        let suppress_everyone = required::<bool>(&mut source, "suppress_everyone")?;
        Ok(
            UserGuildSettings {
                channel_overrides,
                guild_id,
                message_notifications: message_notifications.0,
                mobile_push,
                muted,
                suppress_everyone,
            },
        )
    }
}

/// The client settings of the current user.
#[derive(Clone, Debug, PartialEq, Eq)]
pub struct UserSettings {
    /// Whether typed emoticons are turned into emoji.
    pub convert_emoticons: bool,
    /// Whether the command for text to speech is enabled.
    pub enable_tts_command: bool,
    /// Who may ask the user to be friends.
    pub friend_source_flags: FriendSourceFlags,
    /// Whether attached media are shown in line.
    pub inline_attachment_media: bool,
    /// Whether embedded media are shown in line.
    pub inline_embed_media: bool,
    /// The language of the client.
    pub locale: String,
    /// Whether messages are shown in the compact layout.
    pub message_display_compact: bool,
    /// Whether embeds are shown.
    pub render_embeds: bool,
    /// The guilds whose members may not write to the user in private.
    pub restricted_guilds: Vec<GuildId>,
    /// Whether the game that the user plays is shown to others.
    pub show_current_game: bool,
    /// The status that the user has chosen.
    pub status: OnlineStatus,
    /// The colour theme of the client.
    pub theme: String,
}

/// The model of the settings of a user: what the record holds, as a mathematical value.
pub struct UserSettingsModel {
    pub convert_emoticons: bool,
    pub enable_tts_command: bool,
    pub friend_source_flags: FriendSourceFlagsModel,
    pub inline_attachment_media: bool,
    pub inline_embed_media: bool,
    pub locale: Seq<char>,
    pub message_display_compact: bool,
    pub render_embeds: bool,
    pub restricted_guilds: Seq<GuildId>,
    pub show_current_game: bool,
    pub status: OnlineStatus,
    pub theme: Seq<char>,
}

impl DeepView for UserSettings {
    type V = UserSettingsModel;

    open spec fn deep_view(&self) -> UserSettingsModel {
        UserSettingsModel {
            convert_emoticons: self.convert_emoticons.deep_view(),
            enable_tts_command: self.enable_tts_command.deep_view(),
            friend_source_flags: self.friend_source_flags.deep_view(),
            inline_attachment_media: self.inline_attachment_media.deep_view(),
            inline_embed_media: self.inline_embed_media.deep_view(),
            locale: self.locale.deep_view(),
            message_display_compact: self.message_display_compact.deep_view(),
            render_embeds: self.render_embeds.deep_view(),
            restricted_guilds: self.restricted_guilds.deep_view(),
            show_current_game: self.show_current_game.deep_view(),
            status: self.status.deep_view(),
            theme: self.theme.deep_view(),
        }
    }
}

impl UserSettings {
    /// What a mapping with the contents `source` gives as the settings of a user: the record
    /// put together from its fields, or the error of the first field, in the order written
    /// here, that fails.
    pub open spec fn from_fields(source: Map<Seq<char>, Value>) -> Result<
        UserSettingsModel,
        Error,
    > {
        let convert_emoticons = required_field::<bool>(source, "convert_emoticons");
        let enable_tts_command = required_field::<bool>(source, "enable_tts_command");
        let friend_source_flags = required_field::<FriendSourceFlags>(
            source,
            "friend_source_flags",
        );
        let inline_attachment_media = required_field::<bool>(source, "inline_attachment_media");
        let inline_embed_media = required_field::<bool>(source, "inline_embed_media");
        let locale = required_field::<String>(source, "locale");
        let message_display_compact = required_field::<bool>(source, "message_display_compact");
        let render_embeds = required_field::<bool>(source, "render_embeds");
        let restricted_guilds = required_field::<Vec<GuildId>>(source, "restricted_guilds");
        let show_current_game = required_field::<bool>(source, "show_current_game");
        let theme = required_field::<String>(source, "theme");
        let status = required_field::<Named<OnlineStatus>>(source, "status");
        if convert_emoticons is Err {
            Err(convert_emoticons->Err_0)
        } else if enable_tts_command is Err {
            Err(enable_tts_command->Err_0)
        } else if friend_source_flags is Err {
            Err(friend_source_flags->Err_0)
        } else if inline_attachment_media is Err {
            Err(inline_attachment_media->Err_0)
        } else if inline_embed_media is Err {
            Err(inline_embed_media->Err_0)
        } else if locale is Err {
            Err(locale->Err_0)
        } else if message_display_compact is Err {
            Err(message_display_compact->Err_0)
        } else if render_embeds is Err {
            Err(render_embeds->Err_0)
        } else if restricted_guilds is Err {
            Err(restricted_guilds->Err_0)
        } else if show_current_game is Err {
            Err(show_current_game->Err_0)
        } else if theme is Err {
            Err(theme->Err_0)
        } else if status is Err {
            Err(status->Err_0)
        } else {
            Ok(
                UserSettingsModel {
                    convert_emoticons: convert_emoticons->Ok_0,
                    enable_tts_command: enable_tts_command->Ok_0,
                    friend_source_flags: friend_source_flags->Ok_0,
                    inline_attachment_media: inline_attachment_media->Ok_0,
                    inline_embed_media: inline_embed_media->Ok_0,
                    locale: locale->Ok_0,
                    message_display_compact: message_display_compact->Ok_0,
                    render_embeds: render_embeds->Ok_0,
                    restricted_guilds: restricted_guilds->Ok_0,
                    show_current_game: show_current_game->Ok_0,
                    status: status->Ok_0,
                    theme: theme->Ok_0,
                },
            )
        }
    }

    /// What tells the field names of the settings of a user apart: their lengths and, among
    /// names of one length, their letters.
    pub proof fn lemma_field_names()
        ensures
            "convert_emoticons"@.len() == 17,
            "enable_tts_command"@.len() == 18,
            "friend_source_flags"@.len() == 19,
            "inline_attachment_media"@.len() == 23,
            "inline_embed_media"@.len() == 18,
            "locale"@.len() == 6,
            "message_display_compact"@.len() == 23,
            "render_embeds"@.len() == 13,
            "restricted_guilds"@.len() == 17,
            "show_current_game"@.len() == 17,
            "theme"@.len() == 5,
            "status"@.len() == 6,
            "locale"@[0] == 'l',
            "status"@[0] == 's',
            "convert_emoticons"@[0] == 'c',
            "restricted_guilds"@[0] == 'r',
            "show_current_game"@[0] == 's',
            "enable_tts_command"@[0] == 'e',
            "inline_embed_media"@[0] == 'i',
            "inline_attachment_media"@[0] == 'i',
            "message_display_compact"@[0] == 'm',
    {
        reveal_strlit("convert_emoticons");
        reveal_strlit("enable_tts_command");
        reveal_strlit("friend_source_flags");
        reveal_strlit("inline_attachment_media");
        reveal_strlit("inline_embed_media");
        reveal_strlit("locale");
        reveal_strlit("message_display_compact");
        reveal_strlit("render_embeds");
        reveal_strlit("restricted_guilds");
        reveal_strlit("show_current_game");
        reveal_strlit("theme");
        reveal_strlit("status");
    }

    /// A mapping that holds the required fields of the settings of a user and no other, each
    /// with a value that decodes, is decoded.
    pub proof fn lemma_minimal_decodes(source: Map<Seq<char>, Value>)
        requires
            source.dom() =~= set![
                "convert_emoticons"@,
                "enable_tts_command"@,
                "friend_source_flags"@,
                "inline_attachment_media"@,
                "inline_embed_media"@,
                "locale"@,
                "message_display_compact"@,
                "render_embeds"@,
                "restricted_guilds"@,
                "show_current_game"@,
                "theme"@,
                "status"@,
            ],
            bool::decoded(source["convert_emoticons"@]) is Ok,
            bool::decoded(source["enable_tts_command"@]) is Ok,
            FriendSourceFlags::decoded(source["friend_source_flags"@]) is Ok,
            bool::decoded(source["inline_attachment_media"@]) is Ok,
            bool::decoded(source["inline_embed_media"@]) is Ok,
            String::decoded(source["locale"@]) is Ok,
            bool::decoded(source["message_display_compact"@]) is Ok,
            bool::decoded(source["render_embeds"@]) is Ok,
            <Vec<GuildId>>::decoded(source["restricted_guilds"@]) is Ok,
            bool::decoded(source["show_current_game"@]) is Ok,
            String::decoded(source["theme"@]) is Ok,
            <Named<OnlineStatus>>::decoded(source["status"@]) is Ok,
        ensures
            UserSettings::from_fields(source) is Ok,
    {
        UserSettings::lemma_field_names();
    }

    /// Without one of its required fields, a mapping that was decoded as the settings of a user
    /// fails, and the error names exactly the field that is gone.
    pub proof fn lemma_missing_required_field(source: Map<Seq<char>, Value>)
        requires
            UserSettings::from_fields(source) is Ok,
        ensures
            fails_with(
                UserSettings::from_fields(source.remove("convert_emoticons"@)),
                Error::MissingField("convert_emoticons"),
            ),
            fails_with(
                UserSettings::from_fields(source.remove("enable_tts_command"@)),
                Error::MissingField("enable_tts_command"),
            ),
            fails_with(
                UserSettings::from_fields(source.remove("friend_source_flags"@)),
                Error::MissingField("friend_source_flags"),
            ),
            fails_with(
                UserSettings::from_fields(source.remove("inline_attachment_media"@)),
                Error::MissingField("inline_attachment_media"),
            ),
            fails_with(
                UserSettings::from_fields(source.remove("inline_embed_media"@)),
                Error::MissingField("inline_embed_media"),
            ),
            fails_with(
                UserSettings::from_fields(source.remove("locale"@)),
                Error::MissingField("locale"),
            ),
            fails_with(
                UserSettings::from_fields(source.remove("message_display_compact"@)),
                Error::MissingField("message_display_compact"),
            ),
            fails_with(
                UserSettings::from_fields(source.remove("render_embeds"@)),
                Error::MissingField("render_embeds"),
            ),
            fails_with(
                UserSettings::from_fields(source.remove("restricted_guilds"@)),
                Error::MissingField("restricted_guilds"),
            ),
            fails_with(
                UserSettings::from_fields(source.remove("show_current_game"@)),
                Error::MissingField("show_current_game"),
            ),
            fails_with(
                UserSettings::from_fields(source.remove("theme"@)),
                Error::MissingField("theme"),
            ),
            fails_with(
                UserSettings::from_fields(source.remove("status"@)),
                Error::MissingField("status"),
            ),
    {
        UserSettings::lemma_field_names();
    }

    /// A field that the settings of a user does not have changes nothing: it is passed over,
    /// whatever it holds.
    pub proof fn lemma_unknown_field_ignored(
        source: Map<Seq<char>, Value>,
        key: Seq<char>,
        value: Value,
    )
        requires
            key != "convert_emoticons"@,
            key != "enable_tts_command"@,
            key != "friend_source_flags"@,
            key != "inline_attachment_media"@,
            key != "inline_embed_media"@,
            key != "locale"@,
            key != "message_display_compact"@,
            key != "render_embeds"@,
            key != "restricted_guilds"@,
            key != "show_current_game"@,
            key != "theme"@,
            key != "status"@,
        ensures
            UserSettings::from_fields(source.insert(key, value))
                == UserSettings::from_fields(source),
    {
    }
}

impl Decode for UserSettings {
    open spec fn decoded(value: Value) -> Result<UserSettingsModel, Error> {
        match value {
            Value::Mapping(source) => UserSettings::from_fields(source@),
            _ => Err(Error::mismatch(Shape::Mapping)),
        }
    }

    fn decode(value: Value) -> (r: Result<UserSettings, Error>) {
        let mut source = expect_map(value)?;
        proof {
            UserSettings::lemma_field_names();
        }
        let convert_emoticons = required::<bool>(&mut source, "convert_emoticons")?;
        let enable_tts_command = required::<bool>(&mut source, "enable_tts_command")?;
        let friend_source_flags = required::<FriendSourceFlags>(
            &mut source,
            "friend_source_flags",
        )?;
        let inline_attachment_media = required::<bool>(&mut source, "inline_attachment_media")?;
        let inline_embed_media = required::<bool>(&mut source, "inline_embed_media")?;
        let locale = required::<String>(&mut source, "locale")?;
        let message_display_compact = required::<bool>(&mut source, "message_display_compact")?;
        let render_embeds = required::<bool>(&mut source, "render_embeds")?;
        let restricted_guilds = required::<Vec<GuildId>>(&mut source, "restricted_guilds")?;
        let show_current_game = required::<bool>(&mut source, "show_current_game")?;
        let theme = required::<String>(&mut source, "theme")?;
        let status = required::<Named<OnlineStatus>>(&mut source, "status")?;
        Ok(
            UserSettings {
                convert_emoticons,
                enable_tts_command,
                friend_source_flags,
                inline_attachment_media,
                inline_embed_media,
                locale,
                message_display_compact,
                render_embeds,
                restricted_guilds,
                show_current_game,
                status: status.0,
                theme,
            },
        )
    }
}

/// How far the current user has come in the tutorial.
#[derive(Clone, Debug, PartialEq, Eq)]
pub struct Tutorial {
    /// The hints that the user has confirmed.
    pub indicators_confirmed: Vec<String>,
    /// Whether hints are no longer shown.
    pub indicators_suppressed: bool,
}

/// The model of a tutorial progress: what the record holds, as a mathematical value.
pub struct TutorialModel {
    pub indicators_confirmed: Seq<Seq<char>>,
    pub indicators_suppressed: bool,
}

impl DeepView for Tutorial {
    type V = TutorialModel;

    open spec fn deep_view(&self) -> TutorialModel {
        TutorialModel {
            indicators_confirmed: self.indicators_confirmed.deep_view(),
            indicators_suppressed: self.indicators_suppressed.deep_view(),
        }
    }
}

impl Tutorial {
    /// What a mapping with the contents `source` gives as a tutorial progress: the record put
    /// together from its fields, or the error of the first field, in the order written here,
    /// that fails.
    pub open spec fn from_fields(source: Map<Seq<char>, Value>) -> Result<TutorialModel, Error> {
        let indicators_confirmed = required_field::<Vec<String>>(source, "indicators_confirmed");
        let indicators_suppressed = required_field::<bool>(source, "indicators_suppressed");
        if indicators_confirmed is Err {
            Err(indicators_confirmed->Err_0)
        } else if indicators_suppressed is Err {
            Err(indicators_suppressed->Err_0)
        } else {
            Ok(
                TutorialModel {
                    indicators_confirmed: indicators_confirmed->Ok_0,
                    indicators_suppressed: indicators_suppressed->Ok_0,
                },
            )
        }
    }

    /// What tells the field names of a tutorial progress apart: their lengths and, among names
    /// of one length, their letters.
    pub proof fn lemma_field_names()
        ensures
            "indicators_confirmed"@.len() == 20,
            "indicators_suppressed"@.len() == 21,
    {
        reveal_strlit("indicators_confirmed");
        reveal_strlit("indicators_suppressed");
    }

    /// A mapping that holds the required fields of a tutorial progress and no other, each with
    /// a value that decodes, is decoded.
    pub proof fn lemma_minimal_decodes(source: Map<Seq<char>, Value>)
        requires
            source.dom() =~= set!["indicators_confirmed"@, "indicators_suppressed"@],
            <Vec<String>>::decoded(source["indicators_confirmed"@]) is Ok,
            bool::decoded(source["indicators_suppressed"@]) is Ok,
        ensures
            Tutorial::from_fields(source) is Ok,
    {
        Tutorial::lemma_field_names();
    }

    /// Without one of its required fields, a mapping that was decoded as a tutorial progress
    /// fails, and the error names exactly the field that is gone.
    pub proof fn lemma_missing_required_field(source: Map<Seq<char>, Value>)
        requires
            Tutorial::from_fields(source) is Ok,
        ensures
            fails_with(
                Tutorial::from_fields(source.remove("indicators_confirmed"@)),
                Error::MissingField("indicators_confirmed"),
            ),
            fails_with(
                Tutorial::from_fields(source.remove("indicators_suppressed"@)),
                Error::MissingField("indicators_suppressed"),
            ),
    {
        Tutorial::lemma_field_names();
    }

    /// A field that a tutorial progress does not have changes nothing: it is passed over,
    /// whatever it holds.
    pub proof fn lemma_unknown_field_ignored(
        source: Map<Seq<char>, Value>,
        key: Seq<char>,
        value: Value,
    )
        requires
            key != "indicators_confirmed"@,
            key != "indicators_suppressed"@,
        ensures
            Tutorial::from_fields(source.insert(key, value)) == Tutorial::from_fields(source),
    {
    }
}

impl Decode for Tutorial {
    open spec fn decoded(value: Value) -> Result<TutorialModel, Error> {
        match value {
            Value::Mapping(source) => Tutorial::from_fields(source@),
            _ => Err(Error::mismatch(Shape::Mapping)),
        }
    }

    fn decode(value: Value) -> (r: Result<Tutorial, Error>) {
        let mut source = expect_map(value)?;
        proof {
            Tutorial::lemma_field_names();
        }
        let indicators_confirmed = required::<Vec<String>>(&mut source, "indicators_confirmed")?;
        let indicators_suppressed = required::<bool>(&mut source, "indicators_suppressed")?;
        Ok(
            Tutorial {
                indicators_confirmed,
                indicators_suppressed,
            },
        )
    }
}

/// A connection of a user to another service.
#[derive(Clone, Debug, PartialEq, Eq)]
pub struct UserConnection {
    /// The id of the user on the service.
    pub id: String,
    /// Whether friends are taken over from the service.
    pub friend_sync: bool,
    /// The integrations that use the connection.
    pub integrations: Vec<Integration>,
    /// The service. On the wire the field is called `type`.
    pub kind: ConnectionType,
    /// The name of the user on the service.
    pub name: String,
    /// Whether the connection has been revoked.
    pub revoked: bool,
    /// Who may see the connection.
    pub visibility: u64,
}

/// The model of a user connection: what the record holds, as a mathematical value.
pub struct UserConnectionModel {
    pub id: Seq<char>,
    pub friend_sync: bool,
    pub integrations: Seq<IntegrationModel>,
    pub kind: ConnectionType,
    pub name: Seq<char>,
    pub revoked: bool,
    pub visibility: u64,
}

impl DeepView for UserConnection {
    type V = UserConnectionModel;

    open spec fn deep_view(&self) -> UserConnectionModel {
        UserConnectionModel {
            id: self.id.deep_view(),
            friend_sync: self.friend_sync.deep_view(),
            integrations: self.integrations.deep_view(),
            kind: self.kind.deep_view(),
            name: self.name.deep_view(),
            revoked: self.revoked.deep_view(),
            visibility: self.visibility.deep_view(),
        }
    }
}

impl UserConnection {
    /// What a mapping with the contents `source` gives as a user connection: the record put
    /// together from its fields, or the error of the first field, in the order written here,
    /// that fails.
    pub open spec fn from_fields(source: Map<Seq<char>, Value>) -> Result<
        UserConnectionModel,
        Error,
    > {
        let id = required_field::<String>(source, "id");
        let friend_sync = required_field::<bool>(source, "friend_sync");
        let integrations = required_field::<Vec<Integration>>(source, "integrations");
        let kind = required_field::<Named<ConnectionType>>(source, "type");
        let name = required_field::<String>(source, "name");
        let revoked = required_field::<bool>(source, "revoked");
        let visibility = required_field::<u64>(source, "visibility");
        if id is Err {
            Err(id->Err_0)
        } else if friend_sync is Err {
            Err(friend_sync->Err_0)
        } else if integrations is Err {
            Err(integrations->Err_0)
        } else if kind is Err {
            Err(kind->Err_0)
        } else if name is Err {
            Err(name->Err_0)
        } else if revoked is Err {
            Err(revoked->Err_0)
        } else if visibility is Err {
            Err(visibility->Err_0)
        } else {
            Ok(
                UserConnectionModel {
                    id: id->Ok_0,
                    friend_sync: friend_sync->Ok_0,
                    integrations: integrations->Ok_0,
                    kind: kind->Ok_0,
                    name: name->Ok_0,
                    revoked: revoked->Ok_0,
                    visibility: visibility->Ok_0,
                },
            )
        }
    }

    /// What tells the field names of a user connection apart: their lengths and, among names of
    /// one length, their letters.
    pub proof fn lemma_field_names()
        ensures
            "id"@.len() == 2,
            "friend_sync"@.len() == 11,
            "integrations"@.len() == 12,
            "type"@.len() == 4,
            "name"@.len() == 4,
            "revoked"@.len() == 7,
            "visibility"@.len() == 10,
            "type"@[0] == 't',
            "name"@[0] == 'n',
    {
        reveal_strlit("id");
        reveal_strlit("friend_sync");
        reveal_strlit("integrations");
        reveal_strlit("type");
        reveal_strlit("name");
        reveal_strlit("revoked");
        reveal_strlit("visibility");
    }

    /// A mapping that holds the required fields of a user connection and no other, each with a
    /// value that decodes, is decoded.
    pub proof fn lemma_minimal_decodes(source: Map<Seq<char>, Value>)
        requires
            source.dom() =~= set![
                "id"@,
                "friend_sync"@,
                "integrations"@,
                "type"@,
                "name"@,
                "revoked"@,
                "visibility"@,
            ],
            String::decoded(source["id"@]) is Ok,
            bool::decoded(source["friend_sync"@]) is Ok,
            <Vec<Integration>>::decoded(source["integrations"@]) is Ok,
            <Named<ConnectionType>>::decoded(source["type"@]) is Ok,
            String::decoded(source["name"@]) is Ok,
            bool::decoded(source["revoked"@]) is Ok,
            u64::decoded(source["visibility"@]) is Ok,
        ensures
            UserConnection::from_fields(source) is Ok,
    {
        UserConnection::lemma_field_names();
    }

    /// Without one of its required fields, a mapping that was decoded as a user connection
    /// fails, and the error names exactly the field that is gone.
    pub proof fn lemma_missing_required_field(source: Map<Seq<char>, Value>)
        requires
            UserConnection::from_fields(source) is Ok,
        ensures
            fails_with(
                UserConnection::from_fields(source.remove("id"@)),
                Error::MissingField("id"),
            ),
            fails_with(
                UserConnection::from_fields(source.remove("friend_sync"@)),
                Error::MissingField("friend_sync"),
            ),
            fails_with(
                UserConnection::from_fields(source.remove("integrations"@)),
                Error::MissingField("integrations"),
            ),
            fails_with(
                UserConnection::from_fields(source.remove("type"@)),
                Error::MissingField("type"),
            ),
            fails_with(
                UserConnection::from_fields(source.remove("name"@)),
                Error::MissingField("name"),
            ),
            fails_with(
                UserConnection::from_fields(source.remove("revoked"@)),
                Error::MissingField("revoked"),
            ),
            fails_with(
                UserConnection::from_fields(source.remove("visibility"@)),
                Error::MissingField("visibility"),
            ),
    {
        UserConnection::lemma_field_names();
    }

    /// A field that a user connection does not have changes nothing: it is passed over,
    /// whatever it holds.
    pub proof fn lemma_unknown_field_ignored(
        source: Map<Seq<char>, Value>,
        key: Seq<char>,
        value: Value,
    )
        requires
            key != "id"@,
            key != "friend_sync"@,
            key != "integrations"@,
            key != "type"@,
            key != "name"@,
            key != "revoked"@,
            key != "visibility"@,
        ensures
            UserConnection::from_fields(source.insert(key, value))
                == UserConnection::from_fields(source),
    {
    }
}

impl Decode for UserConnection {
    open spec fn decoded(value: Value) -> Result<UserConnectionModel, Error> {
        match value {
            Value::Mapping(source) => UserConnection::from_fields(source@),
            _ => Err(Error::mismatch(Shape::Mapping)),
        }
    }

    fn decode(value: Value) -> (r: Result<UserConnection, Error>) {
        let mut source = expect_map(value)?;
        proof {
            UserConnection::lemma_field_names();
        }
        let id = required::<String>(&mut source, "id")?;
        let friend_sync = required::<bool>(&mut source, "friend_sync")?;
        let integrations = required::<Vec<Integration>>(&mut source, "integrations")?;
        let kind = required::<Named<ConnectionType>>(&mut source, "type")?;
        let name = required::<String>(&mut source, "name")?;
        let revoked = required::<bool>(&mut source, "revoked")?;
        let visibility = required::<u64>(&mut source, "visibility")?;
        Ok(
            UserConnection {
                id,
                friend_sync,
                integrations,
                kind: kind.0,
                name,
                revoked,
                visibility,
            },
        )
    }
}

} // verus!
