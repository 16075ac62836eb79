//! Applications.

use crate::access::expect_map;
use crate::decode::Decode;
use crate::decode::fails_with;
use crate::decode::no_items;
use crate::decode::optional;
use crate::decode::optional_field;
use crate::decode::required;
use crate::decode::required_field;
use crate::error::Error;
use crate::error::Shape;
use crate::ident::UserId;
use crate::records::user::User;
use crate::records::user::UserModel;
use crate::scalar::Discriminator;
use crate::value::Value;
use vstd::prelude::*;

verus! {

/// The bot user of an application, with its token.
#[derive(Clone, Debug, PartialEq, Eq)]
pub struct BotApplication {
    /// The id of the bot user.
    pub id: UserId,
    /// The hash of the avatar, if one is set.
    pub avatar: Option<String>,
    /// Whether the account is a bot. Where the field is absent, this is `false`.
    pub bot: bool,
    /// The discriminator, which tells apart users of one name.
    pub discriminator: Discriminator,
    /// The name of the bot user. On the wire the field is called `username`.
    pub name: String,
    /// The token that the bot logs in with.
    pub token: String,
}

/// The model of a bot application: what the record holds, as a mathematical value.
pub struct BotApplicationModel {
    pub id: UserId,
    pub avatar: Option<Seq<char>>,
    pub bot: bool,
    pub discriminator: Discriminator,
    pub name: Seq<char>,
    pub token: Seq<char>,
}

impl DeepView for BotApplication {
    type V = BotApplicationModel;

    open spec fn deep_view(&self) -> BotApplicationModel {
        BotApplicationModel {
            id: self.id.deep_view(),
            avatar: self.avatar.deep_view(),
            bot: self.bot.deep_view(),
            discriminator: self.discriminator.deep_view(),
            name: self.name.deep_view(),
            token: self.token.deep_view(),
        }
    }
}

impl BotApplication {
    /// What a mapping with the contents `source` gives as a bot application: the record put
    /// together from its fields, or the error of the first field, in the order written here,
    /// that fails.
    pub open spec fn from_fields(source: Map<Seq<char>, Value>) -> Result<
        BotApplicationModel,
        Error,
    > {
        let id = required_field::<UserId>(source, "id");
        let avatar = optional_field::<String>(source, "avatar");
        let bot = optional_field::<bool>(source, "bot");
        let discriminator = required_field::<Discriminator>(source, "discriminator");
        let name = required_field::<String>(source, "username");
        let token = required_field::<String>(source, "token");
        if id is Err {
            Err(id->Err_0)
        } else if avatar is Err {
            Err(avatar->Err_0)
        } else if bot is Err {
            Err(bot->Err_0)
        } else if discriminator is Err {
            Err(discriminator->Err_0)
        } else if name is Err {
            Err(name->Err_0)
        } else if token is Err {
            Err(token->Err_0)
        } else {
            Ok(
                BotApplicationModel {
                    id: id->Ok_0,
                    avatar: avatar->Ok_0,
                    bot: match bot->Ok_0 {
                        Some(given) => given,
                        None => false,
                    },
                    discriminator: discriminator->Ok_0,
                    name: name->Ok_0,
                    token: token->Ok_0,
                },
            )
        }
    }

    /// What tells the field names of a bot application apart: their lengths and, among names of
    /// one length, their letters.
    pub proof fn lemma_field_names()
        ensures
            "id"@.len() == 2,
            "avatar"@.len() == 6,
            "bot"@.len() == 3,
            "discriminator"@.len() == 13,
            "username"@.len() == 8,
            "token"@.len() == 5,
    {
        reveal_strlit("id");
        reveal_strlit("avatar");
        reveal_strlit("bot");
        reveal_strlit("discriminator");
        reveal_strlit("username");
        reveal_strlit("token");
    }

    /// A mapping that holds the required fields of a bot application and no other, each with a
    /// value that decodes, is decoded.
    pub proof fn lemma_minimal_decodes(source: Map<Seq<char>, Value>)
        requires
            source.dom() =~= set!["id"@, "discriminator"@, "username"@, "token"@],
            UserId::decoded(source["id"@]) is Ok,
            Discriminator::decoded(source["discriminator"@]) is Ok,
            String::decoded(source["username"@]) is Ok,
            String::decoded(source["token"@]) is Ok,
        ensures
            BotApplication::from_fields(source) is Ok,
    {
        BotApplication::lemma_field_names();
    }

    /// Without one of its required fields, a mapping that was decoded as a bot application
    /// fails, and the error names exactly the field that is gone.
    pub proof fn lemma_missing_required_field(source: Map<Seq<char>, Value>)
        requires
            BotApplication::from_fields(source) is Ok,
        ensures
            fails_with(
                BotApplication::from_fields(source.remove("id"@)),
                Error::MissingField("id"),
            ),
            fails_with(
                BotApplication::from_fields(source.remove("discriminator"@)),
                Error::MissingField("discriminator"),
            ),
            fails_with(
                BotApplication::from_fields(source.remove("username"@)),
                Error::MissingField("username"),
            ),
            fails_with(
                BotApplication::from_fields(source.remove("token"@)),
                Error::MissingField("token"),
            ),
    {
        BotApplication::lemma_field_names();
    }

    /// A field that a bot application does not have changes nothing: it is passed over,
    /// whatever it holds.
    pub proof fn lemma_unknown_field_ignored(
        source: Map<Seq<char>, Value>,
        key: Seq<char>,
        value: Value,
    )
        requires
            key != "id"@,
            key != "avatar"@,
            key != "bot"@,
            key != "discriminator"@,
            key != "username"@,
            key != "token"@,
        ensures
            BotApplication::from_fields(source.insert(key, value))
                == BotApplication::from_fields(source),
    {
    }

    /// An optional field of a bot application that is absent is decoded as absent, or as its
    /// default. One that is present with a value of the wrong shape is not taken for absent:
    /// the record fails with that mismatch, which names the field.
    pub proof fn lemma_optional_fields(
        source: Map<Seq<char>, Value>,
        wrong: Value,
        expected: Shape,
    )
        requires
            BotApplication::from_fields(source) is Ok,
        ensures
            !source.contains_key("avatar"@)
                ==> BotApplication::from_fields(source)->Ok_0.avatar is None,
            fails_with(String::decoded(wrong), Error::mismatch(expected)) ==> fails_with(
                BotApplication::from_fields(source.insert("avatar"@, wrong)),
                Error::TypeMismatch(expected, Some("avatar")),
            ),
            !source.contains_key("bot"@) ==> BotApplication::from_fields(source)->Ok_0.bot == false,
            fails_with(bool::decoded(wrong), Error::mismatch(expected)) ==> fails_with(
                BotApplication::from_fields(source.insert("bot"@, wrong)),
                Error::TypeMismatch(expected, Some("bot")),
            ),
    {
        BotApplication::lemma_field_names();
    }
}

impl Decode for BotApplication {
    open spec fn decoded(value: Value) -> Result<BotApplicationModel, Error> {
        match value {
            Value::Mapping(source) => BotApplication::from_fields(source@),
            _ => Err(Error::mismatch(Shape::Mapping)),
        }
    }

    fn decode(value: Value) -> (r: Result<BotApplication, Error>) {
        let mut source = expect_map(value)?;
        proof {
            BotApplication::lemma_field_names();
        }
        let id = required::<UserId>(&mut source, "id")?;
        let avatar = optional::<String>(&mut source, "avatar")?;
        let bot = optional::<bool>(&mut source, "bot")?;
        let discriminator = required::<Discriminator>(&mut source, "discriminator")?;
        let name = required::<String>(&mut source, "username")?;
        let token = required::<String>(&mut source, "token")?;
        Ok(
            BotApplication {
                id,
                avatar,
                bot: match bot {
                    Some(given) => given,
                    None => false,
                },
                discriminator,
                name,
                token,
            },
        )
    }
}

/// An application of a user.
#[derive(Clone, Debug, PartialEq, Eq)]
pub struct ApplicationInfo {
    /// The bot user of the application, if it has one.
    pub bot: Option<BotApplication>,
    /// Whether anyone may add the bot to a guild.
    pub bot_public: bool,
    /// Whether adding the bot asks for a full code grant.
    pub bot_require_code_grant: bool,
    /// What the application is about.
    pub description: String,
    /// The feature flags of the bot user, where the application has one.
    pub flags: Option<u64>,
    /// The hash of the icon, if one is set.
    pub icon: Option<String>,
    /// The id of the application.
    pub id: UserId,
    /// The name of the application.
    pub name: String,
    /// The URIs that a login may lead back to.
    pub redirect_uris: Vec<String>,
    /// The origins that may call the application.
    pub rpc_origins: Vec<String>,
    /// The secret of the application.
    pub secret: String,
}

/// The model of an application: what the record holds, as a mathematical value.
pub struct ApplicationInfoModel {
    pub bot: Option<BotApplicationModel>,
    pub bot_public: bool,
    pub bot_require_code_grant: bool,
    pub description: Seq<char>,
    pub flags: Option<u64>,
    pub icon: Option<Seq<char>>,
    pub id: UserId,
    pub name: Seq<char>,
    pub redirect_uris: Seq<Seq<char>>,
    pub rpc_origins: Seq<Seq<char>>,
    pub secret: Seq<char>,
}

impl DeepView for ApplicationInfo {
    type V = ApplicationInfoModel;

    open spec fn deep_view(&self) -> ApplicationInfoModel {
        ApplicationInfoModel {
            bot: self.bot.deep_view(),
            bot_public: self.bot_public.deep_view(),
            bot_require_code_grant: self.bot_require_code_grant.deep_view(),
            description: self.description.deep_view(),
            flags: self.flags.deep_view(),
            icon: self.icon.deep_view(),
            id: self.id.deep_view(),
            name: self.name.deep_view(),
            redirect_uris: self.redirect_uris.deep_view(),
            rpc_origins: self.rpc_origins.deep_view(),
            secret: self.secret.deep_view(),
        }
    }
}

impl ApplicationInfo {
    /// What a mapping with the contents `source` gives as an application: the record put
    /// together from its fields, or the error of the first field, in the order written here,
    /// that fails.
    pub open spec fn from_fields(source: Map<Seq<char>, Value>) -> Result<
        ApplicationInfoModel,
        Error,
    > {
        let bot = optional_field::<BotApplication>(source, "bot");
        let bot_public = required_field::<bool>(source, "bot_public");
        let bot_require_code_grant = required_field::<bool>(source, "bot_require_code_grant");
        let description = required_field::<String>(source, "description");
        let flags = optional_field::<u64>(source, "flags");
        let icon = optional_field::<String>(source, "icon");
        let id = required_field::<UserId>(source, "id");
        let name = required_field::<String>(source, "name");
        let redirect_uris = required_field::<Vec<String>>(source, "redirect_uris");
        let rpc_origins = required_field::<Vec<String>>(source, "rpc_origins");
        let secret = required_field::<String>(source, "secret");
        if bot is Err {
            Err(bot->Err_0)
        } else if bot_public is Err {
            Err(bot_public->Err_0)
        } else if bot_require_code_grant is Err {
            Err(bot_require_code_grant->Err_0)
        } else if description is Err {
            Err(description->Err_0)
        } else if flags is Err {
            Err(flags->Err_0)
        } else if icon is Err {
            Err(icon->Err_0)
        } else if id is Err {
            Err(id->Err_0)
        } else if name is Err {
            Err(name->Err_0)
        } else if redirect_uris is Err {
            Err(redirect_uris->Err_0)
        } else if rpc_origins is Err {
            Err(rpc_origins->Err_0)
        } else if secret is Err {
            Err(secret->Err_0)
        } else {
            Ok(
                ApplicationInfoModel {
                    bot: bot->Ok_0,
                    bot_public: bot_public->Ok_0,
                    bot_require_code_grant: bot_require_code_grant->Ok_0,
                    description: description->Ok_0,
                    flags: flags->Ok_0,
                    icon: icon->Ok_0,
                    id: id->Ok_0,
                    name: name->Ok_0,
                    redirect_uris: redirect_uris->Ok_0,
                    rpc_origins: rpc_origins->Ok_0,
                    secret: secret->Ok_0,
                },
            )
        }
    }

    /// What tells the field names of an application apart: their lengths and, among names of
    /// one length, their letters.
    pub proof fn lemma_field_names()
        ensures
            "bot"@.len() == 3,
            "bot_public"@.len() == 10,
            "bot_require_code_grant"@.len() == 22,
            "description"@.len() == 11,
            "flags"@.len() == 5,
            "icon"@.len() == 4,
            "id"@.len() == 2,
            "name"@.len() == 4,
            "redirect_uris"@.len() == 13,
            "rpc_origins"@.len() == 11,
            "secret"@.len() == 6,
            "icon"@[0] == 'i',
            "name"@[0] == 'n',
            "description"@[0] == 'd',
            "rpc_origins"@[0] == 'r',
    {
        reveal_strlit("bot");
        reveal_strlit("bot_public");
        reveal_strlit("bot_require_code_grant");
        reveal_strlit("description");
        reveal_strlit("flags");
        reveal_strlit("icon");
        reveal_strlit("id");
        reveal_strlit("name");
        reveal_strlit("redirect_uris");
        reveal_strlit("rpc_origins");
        reveal_strlit("secret");
    }

    /// A mapping that holds the required fields of an application and no other, each with a
    /// value that decodes, is decoded.
    pub proof fn lemma_minimal_decodes(source: Map<Seq<char>, Value>)
        requires
            source.dom() =~= set![
                "bot_public"@,
                "bot_require_code_grant"@,
                "description"@,
                "id"@,
                "name"@,
                "redirect_uris"@,
                "rpc_origins"@,
                "secret"@,
            ],
            bool::decoded(source["bot_public"@]) is Ok,
            bool::decoded(source["bot_require_code_grant"@]) is Ok,
            String::decoded(source["description"@]) is Ok,
            UserId::decoded(source["id"@]) is Ok,
            String::decoded(source["name"@]) is Ok,
            <Vec<String>>::decoded(source["redirect_uris"@]) is Ok,
            <Vec<String>>::decoded(source["rpc_origins"@]) is Ok,
            String::decoded(source["secret"@]) is Ok,
        ensures
            ApplicationInfo::from_fields(source) is Ok,
    {
        ApplicationInfo::lemma_field_names();
    }

    /// Without one of its required fields, a mapping that was decoded as an application fails,
    /// and the error names exactly the field that is gone.
    pub proof fn lemma_missing_required_field(source: Map<Seq<char>, Value>)
        requires
            ApplicationInfo::from_fields(source) is Ok,
        ensures
            fails_with(
                ApplicationInfo::from_fields(source.remove("bot_public"@)),
                Error::MissingField("bot_public"),
            ),
            fails_with(
                ApplicationInfo::from_fields(source.remove("bot_require_code_grant"@)),
                Error::MissingField("bot_require_code_grant"),
            ),
            fails_with(
                ApplicationInfo::from_fields(source.remove("description"@)),
                Error::MissingField("description"),
            ),
            fails_with(
                ApplicationInfo::from_fields(source.remove("id"@)),
                Error::MissingField("id"),
            ),
            fails_with(
                ApplicationInfo::from_fields(source.remove("name"@)),
                Error::MissingField("name"),
            ),
            fails_with(
                ApplicationInfo::from_fields(source.remove("redirect_uris"@)),
                Error::MissingField("redirect_uris"),
            ),
            fails_with(
                ApplicationInfo::from_fields(source.remove("rpc_origins"@)),
                Error::MissingField("rpc_origins"),
            ),
            fails_with(
                ApplicationInfo::from_fields(source.remove("secret"@)),
                Error::MissingField("secret"),
            ),
    {
        ApplicationInfo::lemma_field_names();
    }

    /// A field that an application does not have changes nothing: it is passed over, whatever
    /// it holds.
    pub proof fn lemma_unknown_field_ignored(
        source: Map<Seq<char>, Value>,
        key: Seq<char>,
        value: Value,
    )
        requires
            key != "bot"@,
            key != "bot_public"@,
            key != "bot_require_code_grant"@,
            key != "description"@,
            key != "flags"@,
            key != "icon"@,
            key != "id"@,
            key != "name"@,
            key != "redirect_uris"@,
            key != "rpc_origins"@,
            key != "secret"@,
        ensures
            ApplicationInfo::from_fields(source.insert(key, value))
                == ApplicationInfo::from_fields(source),
    {
    }

    /// An optional field of an application that is absent is decoded as absent, or as its
    /// default. One that is present with a value of the wrong shape is not taken for absent:
    /// the record fails with that mismatch, which names the field.
    pub proof fn lemma_optional_fields(
        source: Map<Seq<char>, Value>,
        wrong: Value,
        expected: Shape,
    )
        requires
            ApplicationInfo::from_fields(source) is Ok,
        ensures
            !source.contains_key("bot"@) ==> ApplicationInfo::from_fields(source)->Ok_0.bot is None,
            fails_with(BotApplication::decoded(wrong), Error::mismatch(expected)) ==> fails_with(
                ApplicationInfo::from_fields(source.insert("bot"@, wrong)),
                Error::TypeMismatch(expected, Some("bot")),
            ),
            !source.contains_key("flags"@)
                ==> ApplicationInfo::from_fields(source)->Ok_0.flags is None,
            fails_with(u64::decoded(wrong), Error::mismatch(expected)) ==> fails_with(
                ApplicationInfo::from_fields(source.insert("flags"@, wrong)),
                Error::TypeMismatch(expected, Some("flags")),
            ),
            !source.contains_key("icon"@)
                ==> ApplicationInfo::from_fields(source)->Ok_0.icon is None,
            fails_with(String::decoded(wrong), Error::mismatch(expected)) ==> fails_with(
                ApplicationInfo::from_fields(source.insert("icon"@, wrong)),
                Error::TypeMismatch(expected, Some("icon")),
            ),
    {
        ApplicationInfo::lemma_field_names();
    }
}

impl Decode for ApplicationInfo {
    open spec fn decoded(value: Value) -> Result<ApplicationInfoModel, Error> {
        match value {
            Value::Mapping(source) => ApplicationInfo::from_fields(source@),
            _ => Err(Error::mismatch(Shape::Mapping)),
        }
    }

    fn decode(value: Value) -> (r: Result<ApplicationInfo, Error>) {
        let mut source = expect_map(value)?;
        proof {
            ApplicationInfo::lemma_field_names();
        }
        let bot = optional::<BotApplication>(&mut source, "bot")?;
        let bot_public = required::<bool>(&mut source, "bot_public")?;
        let bot_require_code_grant = required::<bool>(&mut source, "bot_require_code_grant")?;
        let description = required::<String>(&mut source, "description")?;
        let flags = optional::<u64>(&mut source, "flags")?;
        let icon = optional::<String>(&mut source, "icon")?;
        let id = required::<UserId>(&mut source, "id")?;
        let name = required::<String>(&mut source, "name")?;
        let redirect_uris = required::<Vec<String>>(&mut source, "redirect_uris")?;
        let rpc_origins = required::<Vec<String>>(&mut source, "rpc_origins")?;
        let secret = required::<String>(&mut source, "secret")?;
        Ok(
            ApplicationInfo {
                bot,
                bot_public,
                bot_require_code_grant,
                description,
                flags,
                icon,
                id,
                name,
                redirect_uris,
                rpc_origins,
                secret,
            },
        )
    }
}

/// The application of the session, with its owner.
#[derive(Clone, Debug, PartialEq, Eq)]
pub struct CurrentApplicationInfo {
    /// What the application is about.
    pub description: String,
    /// The hash of the icon, if one is set.
    pub icon: Option<String>,
    /// The id of the application.
    pub id: UserId,
    /// The name of the application.
    pub name: String,
    /// The user who owns the application.
    pub owner: User,
    /// The origins that may call the application. Where the field is absent, there are none.
    pub rpc_origins: Vec<String>,
}

/// The model of the current application: what the record holds, as a mathematical value.
pub struct CurrentApplicationInfoModel {
    pub description: Seq<char>,
    pub icon: Option<Seq<char>>,
    pub id: UserId,
    pub name: Seq<char>,
    pub owner: UserModel,
    pub rpc_origins: Seq<Seq<char>>,
}

impl DeepView for CurrentApplicationInfo {
    type V = CurrentApplicationInfoModel;

    open spec fn deep_view(&self) -> CurrentApplicationInfoModel {
        CurrentApplicationInfoModel {
            description: self.description.deep_view(),
            icon: self.icon.deep_view(),
            id: self.id.deep_view(),
            name: self.name.deep_view(),
            owner: self.owner.deep_view(),
            rpc_origins: self.rpc_origins.deep_view(),
        }
    }
}

impl CurrentApplicationInfo {
    /// What a mapping with the contents `source` gives as the current application: the record
    /// put together from its fields, or the error of the first field, in the order written
    /// here, that fails.
    pub open spec fn from_fields(source: Map<Seq<char>, Value>) -> Result<
        CurrentApplicationInfoModel,
        Error,
    > {
        let description = required_field::<String>(source, "description");
        let icon = optional_field::<String>(source, "icon");
        let id = required_field::<UserId>(source, "id");
        let name = required_field::<String>(source, "name");
        let owner = required_field::<User>(source, "owner");
        let rpc_origins = optional_field::<Vec<String>>(source, "rpc_origins");
        if description is Err {
            Err(description->Err_0)
        } else if icon is Err {
            Err(icon->Err_0)
        } else if id is Err {
            Err(id->Err_0)
        } else if name is Err {
            Err(name->Err_0)
        } else if owner is Err {
            Err(owner->Err_0)
        } else if rpc_origins is Err {
            Err(rpc_origins->Err_0)
        } else {
            Ok(
                CurrentApplicationInfoModel {
                    description: description->Ok_0,
                    icon: icon->Ok_0,
                    id: id->Ok_0,
                    name: name->Ok_0,
                    owner: owner->Ok_0,
                    rpc_origins: match rpc_origins->Ok_0 {
                        Some(given) => given,
                        None => Seq::empty(),
                    },
                },
            )
        }
    }

    /// What tells the field names of the current application apart: their lengths and, among
    /// names of one length, their letters.
    pub proof fn lemma_field_names()
        ensures
            "description"@.len() == 11,
            "icon"@.len() == 4,
            "id"@.len() == 2,
            "name"@.len() == 4,
            "owner"@.len() == 5,
            "rpc_origins"@.len() == 11,
            "icon"@[0] == 'i',
            "name"@[0] == 'n',
            "description"@[0] == 'd',
            "rpc_origins"@[0] == 'r',
    {
        reveal_strlit("description");
        reveal_strlit("icon");
        reveal_strlit("id");
        reveal_strlit("name");
        reveal_strlit("owner");
        reveal_strlit("rpc_origins");
    }

    /// A mapping that holds the required fields of the current application and no other, each
    /// with a value that decodes, is decoded.
    pub proof fn lemma_minimal_decodes(source: Map<Seq<char>, Value>)
        requires
            source.dom() =~= set!["description"@, "id"@, "name"@, "owner"@],
            String::decoded(source["description"@]) is Ok,
            UserId::decoded(source["id"@]) is Ok,
            String::decoded(source["name"@]) is Ok,
            User::decoded(source["owner"@]) is Ok,
        ensures
            CurrentApplicationInfo::from_fields(source) is Ok,
    {
        CurrentApplicationInfo::lemma_field_names();
    }

    /// Without one of its required fields, a mapping that was decoded as the current
    /// application fails, and the error names exactly the field that is gone.
    pub proof fn lemma_missing_required_field(source: Map<Seq<char>, Value>)
        requires
            CurrentApplicationInfo::from_fields(source) is Ok,
        ensures
            fails_with(
                CurrentApplicationInfo::from_fields(source.remove("description"@)),
                Error::MissingField("description"),
            ),
            fails_with(
                CurrentApplicationInfo::from_fields(source.remove("id"@)),
                Error::MissingField("id"),
            ),
            fails_with(
                CurrentApplicationInfo::from_fields(source.remove("name"@)),
                Error::MissingField("name"),
            ),
            fails_with(
                CurrentApplicationInfo::from_fields(source.remove("owner"@)),
                Error::MissingField("owner"),
            ),
    {
        CurrentApplicationInfo::lemma_field_names();
    }

    /// A field that the current application does not have changes nothing: it is passed over,
    /// whatever it holds.
    pub proof fn lemma_unknown_field_ignored(
        source: Map<Seq<char>, Value>,
        key: Seq<char>,
        value: Value,
    )
        requires
            key != "description"@,
            key != "icon"@,
            key != "id"@,
            key != "name"@,
            key != "owner"@,
            key != "rpc_origins"@,
        ensures
            CurrentApplicationInfo::from_fields(source.insert(key, value))
                == CurrentApplicationInfo::from_fields(source),
    {
    }

    /// An optional field of the current application that is absent is decoded as absent, or as
    /// its default. One that is present with a value of the wrong shape is not taken for
    /// absent: the record fails with that mismatch, which names the field.
    pub proof fn lemma_optional_fields(
        source: Map<Seq<char>, Value>,
        wrong: Value,
        expected: Shape,
    )
        requires
            CurrentApplicationInfo::from_fields(source) is Ok,
        ensures
            !source.contains_key("icon"@)
                ==> CurrentApplicationInfo::from_fields(source)->Ok_0.icon is None,
            fails_with(String::decoded(wrong), Error::mismatch(expected)) ==> fails_with(
                CurrentApplicationInfo::from_fields(source.insert("icon"@, wrong)),
                Error::TypeMismatch(expected, Some("icon")),
            ),
            !source.contains_key("rpc_origins"@)
                ==> CurrentApplicationInfo::from_fields(source)->Ok_0.rpc_origins =~= Seq::empty(),
            fails_with(<Vec<String>>::decoded(wrong), Error::mismatch(expected)) ==> fails_with(
                CurrentApplicationInfo::from_fields(source.insert("rpc_origins"@, wrong)),
                Error::TypeMismatch(expected, Some("rpc_origins")),
            ),
    {
        CurrentApplicationInfo::lemma_field_names();
    }
}

impl Decode for CurrentApplicationInfo {
    open spec fn decoded(value: Value) -> Result<CurrentApplicationInfoModel, Error> {
        match value {
            Value::Mapping(source) => CurrentApplicationInfo::from_fields(source@),
            _ => Err(Error::mismatch(Shape::Mapping)),
        }
    }

    fn decode(value: Value) -> (r: Result<CurrentApplicationInfo, Error>) {
        let mut source = expect_map(value)?;
        proof {
            CurrentApplicationInfo::lemma_field_names();
        }
        let description = required::<String>(&mut source, "description")?;
        let icon = optional::<String>(&mut source, "icon")?;
        let id = required::<UserId>(&mut source, "id")?;
        let name = required::<String>(&mut source, "name")?;
        let owner = required::<User>(&mut source, "owner")?;
        let rpc_origins = optional::<Vec<String>>(&mut source, "rpc_origins")?;
        Ok(
            CurrentApplicationInfo {
                description,
                icon,
                id,
                name,
                owner,
                rpc_origins: match rpc_origins {
                    Some(given) => given,
                    None => no_items(),
                },
            },
        )
    }
}

} // verus!
