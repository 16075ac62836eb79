//! What the gateway sends: where to connect, and the session start.

use crate::access::expect_map;
use crate::decode::Decode;
use crate::decode::Filled;
use crate::decode::fails_with;
use crate::decode::optional;
use crate::decode::optional_field;
use crate::decode::required;
use crate::decode::required_field;
use crate::error::Error;
use crate::error::Shape;
use crate::keyed::IdMap;
use crate::keyed::no_entries;
use crate::records::any_channel::Channel;
use crate::records::any_channel::ChannelModel;
use crate::records::channel::ReadState;
use crate::records::channel::ReadStateModel;
use crate::records::guild::Guild;
use crate::records::guild::GuildModel;
use crate::records::possible::PossibleGuild;
use crate::records::possible::PossibleGuildModel;
use crate::records::presence::Presence;
use crate::records::presence::PresenceModel;
use crate::records::session::Notes;
use crate::records::session::ShardInfo;
use crate::records::user::CurrentUser;
use crate::records::user::CurrentUserModel;
use crate::records::user::Relationship;
use crate::records::user::RelationshipModel;
use crate::records::user::Tutorial;
use crate::records::user::TutorialModel;
use crate::records::user::UserGuildSettings;
use crate::records::user::UserGuildSettingsModel;
use crate::records::user::UserSettings;
use crate::records::user::UserSettingsModel;
use crate::value::Value;
use vstd::prelude::*;

verus! {

/// Where a bot connects to the gateway, and with how many shards.
#[derive(Clone, Debug, PartialEq, Eq)]
pub struct BotGateway {
    /// The number of shards that is advised.
    pub shards: u64,
    /// The URL of the gateway.
    pub url: String,
}

/// The model of a bot gateway: what the record holds, as a mathematical value.
pub struct BotGatewayModel {
    pub shards: u64,
    pub url: Seq<char>,
}

impl DeepView for BotGateway {
    type V = BotGatewayModel;

    open spec fn deep_view(&self) -> BotGatewayModel {
        BotGatewayModel {
            shards: self.shards.deep_view(),
            url: self.url.deep_view(),
        }
    }
}

impl BotGateway {
    /// What a mapping with the contents `source` gives as a bot gateway: the record put
    /// together from its fields, or the error of the first field, in the order written here,
    /// that fails.
    pub open spec fn from_fields(source: Map<Seq<char>, Value>) -> Result<BotGatewayModel, Error> {
        let shards = required_field::<u64>(source, "shards");
        let url = required_field::<String>(source, "url");
        if shards is Err {
            Err(shards->Err_0)
        } else if url is Err {
            Err(url->Err_0)
        } else {
            Ok(
                BotGatewayModel {
                    shards: shards->Ok_0,
                    url: url->Ok_0,
                },
            )
        }
    }

    /// What tells the field names of a bot gateway apart: their lengths and, among names of one
    /// length, their letters.
    pub proof fn lemma_field_names()
        ensures
            "shards"@.len() == 6,
            "url"@.len() == 3,
    {
        reveal_strlit("shards");
        reveal_strlit("url");
    }

    /// A mapping that holds the required fields of a bot gateway and no other, each with a
    /// value that decodes, is decoded.
    pub proof fn lemma_minimal_decodes(source: Map<Seq<char>, Value>)
        requires
            source.dom() =~= set!["shards"@, "url"@],
            u64::decoded(source["shards"@]) is Ok,
            String::decoded(source["url"@]) is Ok,
        ensures
            BotGateway::from_fields(source) is Ok,
    {
        BotGateway::lemma_field_names();
    }

    /// Without one of its required fields, a mapping that was decoded as a bot gateway fails,
    /// and the error names exactly the field that is gone.
    pub proof fn lemma_missing_required_field(source: Map<Seq<char>, Value>)
        requires
            BotGateway::from_fields(source) is Ok,
        ensures
            fails_with(
                BotGateway::from_fields(source.remove("shards"@)),
                Error::MissingField("shards"),
            ),
            fails_with(
                BotGateway::from_fields(source.remove("url"@)),
                Error::MissingField("url"),
            ),
    {
        BotGateway::lemma_field_names();
    }

    /// A field that a bot gateway does not have changes nothing: it is passed over, whatever it
    /// holds.
    pub proof fn lemma_unknown_field_ignored(
        source: Map<Seq<char>, Value>,
        key: Seq<char>,
        value: Value,
    )
        requires
            key != "shards"@,
            key != "url"@,
        ensures
            BotGateway::from_fields(source.insert(key, value)) == BotGateway::from_fields(source),
    {
    }
}

impl Decode for BotGateway {
    open spec fn decoded(value: Value) -> Result<BotGatewayModel, Error> {
        match value {
            Value::Mapping(source) => BotGateway::from_fields(source@),
            _ => Err(Error::mismatch(Shape::Mapping)),
        }
    }

    fn decode(value: Value) -> (r: Result<BotGateway, Error>) {
        let mut source = expect_map(value)?;
        proof {
            BotGateway::lemma_field_names();
        }
        let shards = required::<u64>(&mut source, "shards")?;
        let url = required::<String>(&mut source, "url")?;
        Ok(
            BotGateway {
                shards,
                url,
            },
        )
    }
}

/// Where to connect to the gateway.
#[derive(Clone, Debug, PartialEq, Eq)]
pub struct Gateway {
    /// The URL of the gateway.
    pub url: String,
}

/// The model of a gateway: what the record holds, as a mathematical value.
pub struct GatewayModel {
    pub url: Seq<char>,
}

impl DeepView for Gateway {
    type V = GatewayModel;

    open spec fn deep_view(&self) -> GatewayModel {
        GatewayModel {
            url: self.url.deep_view(),
        }
    }
}

impl Gateway {
    /// What a mapping with the contents `source` gives as a gateway: the record put together
    /// from its fields, or the error of the first field, in the order written here, that fails.
    pub open spec fn from_fields(source: Map<Seq<char>, Value>) -> Result<GatewayModel, Error> {
        let url = required_field::<String>(source, "url");
        if url is Err {
            Err(url->Err_0)
        } else {
            Ok(
                GatewayModel {
                    url: url->Ok_0,
                },
            )
        }
    }

    /// What tells the field names of a gateway apart: their lengths and, among names of one
    /// length, their letters.
    pub proof fn lemma_field_names()
        ensures
            "url"@.len() == 3,
    {
        reveal_strlit("url");
    }

    /// A mapping that holds the required fields of a gateway and no other, each with a value
    /// that decodes, is decoded.
    pub proof fn lemma_minimal_decodes(source: Map<Seq<char>, Value>)
        requires
            source.dom() =~= set!["url"@],
            String::decoded(source["url"@]) is Ok,
        ensures
            Gateway::from_fields(source) is Ok,
    {
        Gateway::lemma_field_names();
    }

    /// Without one of its required fields, a mapping that was decoded as a gateway fails, and
    /// the error names exactly the field that is gone.
    pub proof fn lemma_missing_required_field(source: Map<Seq<char>, Value>)
        requires
            Gateway::from_fields(source) is Ok,
        ensures
            fails_with(
                Gateway::from_fields(source.remove("url"@)),
                Error::MissingField("url"),
            ),
    {
        Gateway::lemma_field_names();
    }

    /// A field that a gateway does not have changes nothing: it is passed over, whatever it
    /// holds.
    pub proof fn lemma_unknown_field_ignored(
        source: Map<Seq<char>, Value>,
        key: Seq<char>,
        value: Value,
    )
        requires
            key != "url"@,
        ensures
            Gateway::from_fields(source.insert(key, value)) == Gateway::from_fields(source),
    {
    }
}

impl Decode for Gateway {
    open spec fn decoded(value: Value) -> Result<GatewayModel, Error> {
        match value {
            Value::Mapping(source) => Gateway::from_fields(source@),
            _ => Err(Error::mismatch(Shape::Mapping)),
        }
    }

    fn decode(value: Value) -> (r: Result<Gateway, Error>) {
        let mut source = expect_map(value)?;
        proof {
            Gateway::lemma_field_names();
        }
        let url = required::<String>(&mut source, "url")?;
        Ok(
            Gateway {
                url,
            },
        )
    }
}

/// The start of a session: what the gateway tells once the connection stands.
#[derive(Clone, Debug, PartialEq, Eq)]
pub struct Ready {
    /// A token for analytics, if one is given.
    pub analytics_token: Option<String>,
    /// The experiments that the account takes part in, if any are told.
    pub experiments: Option<Vec<Vec<u64>>>,
    /// How many friends are suggested, if that is told.
    pub friend_suggestion_count: Option<u64>,
    /// The guilds of the user, each at hand or out of reach.
    pub guilds: Vec<PossibleGuild<Guild>>,
    /// The notes of the user on other users. Where the field is absent, there are none.
    pub notes: Notes,
    /// The presences of the friends of the user.
    pub presences: IdMap<Presence>,
    /// The private channels and groups of the user.
    pub private_channels: IdMap<Channel>,
    /// What the user has not read, by channel. Where the field is absent, there are none.
    pub read_state: IdMap<ReadState>,
    /// The relationships of the user.
    pub relationships: IdMap<Relationship>,
    /// The id of the session.
    pub session_id: String,
    /// The shard of the session, where shards are used.
    pub shard: Option<ShardInfo>,
    /// The servers that the connection runs through, if they are told. On the wire the field is
    /// called `_trace`.
    pub trace: Option<Vec<String>>,
    /// How far the user has come in the tutorial, if that is told.
    pub tutorial: Option<Tutorial>,
    /// The user of the session.
    pub user: CurrentUser,
    /// The notification settings of the user by guild, if they are told.
    pub user_guild_settings: Option<Vec<UserGuildSettings>>,
    /// The client settings of the user; none where the field holds an empty mapping.
    pub user_settings: Option<UserSettings>,
    /// The version of the gateway protocol. On the wire the field is called `v`.
    pub version: u64,
}

/// The model of a session start: what the record holds, as a mathematical value.
pub struct ReadyModel {
    pub analytics_token: Option<Seq<char>>,
    pub experiments: Option<Seq<Seq<u64>>>,
    pub friend_suggestion_count: Option<u64>,
    pub guilds: Seq<PossibleGuildModel<GuildModel>>,
    pub notes: Map<u64, Seq<char>>,
    pub presences: Map<u64, PresenceModel>,
    pub private_channels: Map<u64, ChannelModel>,
    pub read_state: Map<u64, ReadStateModel>,
    pub relationships: Map<u64, RelationshipModel>,
    pub session_id: Seq<char>,
    pub shard: Option<ShardInfo>,
    pub trace: Option<Seq<Seq<char>>>,
    pub tutorial: Option<TutorialModel>,
    pub user: CurrentUserModel,
    pub user_guild_settings: Option<Seq<UserGuildSettingsModel>>,
    pub user_settings: Option<UserSettingsModel>,
    pub version: u64,
}

impl DeepView for Ready {
    type V = ReadyModel;

    open spec fn deep_view(&self) -> ReadyModel {
        ReadyModel {
            analytics_token: self.analytics_token.deep_view(),
            experiments: self.experiments.deep_view(),
            friend_suggestion_count: self.friend_suggestion_count.deep_view(),
            guilds: self.guilds.deep_view(),
            notes: self.notes.deep_view(),
            presences: self.presences.deep_view(),
            private_channels: self.private_channels.deep_view(),
            read_state: self.read_state.deep_view(),
            relationships: self.relationships.deep_view(),
            session_id: self.session_id.deep_view(),
            shard: self.shard.deep_view(),
            trace: self.trace.deep_view(),
            tutorial: self.tutorial.deep_view(),
            user: self.user.deep_view(),
            user_guild_settings: self.user_guild_settings.deep_view(),
            user_settings: self.user_settings.deep_view(),
            version: self.version.deep_view(),
        }
    }
}

impl Ready {
    /// What a mapping with the contents `source` gives as a session start: the record put
    /// together from its fields, or the error of the first field, in the order written here,
    /// that fails.
    pub open spec fn from_fields(source: Map<Seq<char>, Value>) -> Result<ReadyModel, Error> {
        let analytics_token = optional_field::<String>(source, "analytics_token");
        let experiments = optional_field::<Vec<Vec<u64>>>(source, "experiments");
        let friend_suggestion_count = optional_field::<u64>(source, "friend_suggestion_count");
        let guilds = required_field::<Vec<PossibleGuild<Guild>>>(source, "guilds");
        let notes = optional_field::<Notes>(source, "notes");
        let presences = required_field::<IdMap<Presence>>(source, "presences");
        let private_channels = required_field::<IdMap<Channel>>(source, "private_channels");
        let read_state = optional_field::<IdMap<ReadState>>(source, "read_state");
        let relationships = required_field::<IdMap<Relationship>>(source, "relationships");
        let session_id = required_field::<String>(source, "session_id");
        let shard = optional_field::<ShardInfo>(source, "shard");
        let trace = optional_field::<Vec<String>>(source, "_trace");
        let tutorial = optional_field::<Tutorial>(source, "tutorial");
        let user = required_field::<CurrentUser>(source, "user");
        let user_guild_settings = optional_field::<Vec<UserGuildSettings>>(
            source,
            "user_guild_settings",
        );
        let user_settings = required_field::<Filled<UserSettings>>(source, "user_settings");
        let version = required_field::<u64>(source, "v");
        if analytics_token is Err {
            Err(analytics_token->Err_0)
        } else if experiments is Err {
            Err(experiments->Err_0)
        } else if friend_suggestion_count is Err {
            Err(friend_suggestion_count->Err_0)
        } else if guilds is Err {
            Err(guilds->Err_0)
        } else if notes is Err {
            Err(notes->Err_0)
        } else if presences is Err {
            Err(presences->Err_0)
        } else if private_channels is Err {
            Err(private_channels->Err_0)
        } else if read_state is Err {
            Err(read_state->Err_0)
        } else if relationships is Err {
            Err(relationships->Err_0)
        } else if session_id is Err {
            Err(session_id->Err_0)
        } else if shard is Err {
            Err(shard->Err_0)
        } else if trace is Err {
            Err(trace->Err_0)
        } else if tutorial is Err {
            Err(tutorial->Err_0)
        } else if user is Err {
            Err(user->Err_0)
        } else if user_guild_settings is Err {
            Err(user_guild_settings->Err_0)
        } else if user_settings is Err {
            Err(user_settings->Err_0)
        } else if version is Err {
            Err(version->Err_0)
        } else {
            Ok(
                ReadyModel {
                    analytics_token: analytics_token->Ok_0,
                    experiments: experiments->Ok_0,
                    friend_suggestion_count: friend_suggestion_count->Ok_0,
                    guilds: guilds->Ok_0,
                    notes: match notes->Ok_0 {
                        Some(given) => given,
                        None => Map::<u64, Seq<char>>::empty(),
                    },
                    presences: presences->Ok_0,
                    private_channels: private_channels->Ok_0,
                    read_state: match read_state->Ok_0 {
                        Some(given) => given,
                        None => Map::empty(),
                    },
                    relationships: relationships->Ok_0,
                    session_id: session_id->Ok_0,
                    shard: shard->Ok_0,
                    trace: trace->Ok_0,
                    tutorial: tutorial->Ok_0,
                    user: user->Ok_0,
                    user_guild_settings: user_guild_settings->Ok_0,
                    user_settings: user_settings->Ok_0,
                    version: version->Ok_0,
                },
            )
        }
    }

    /// What tells the field names of a session start apart: their lengths and, among names of
    /// one length, their letters.
    pub proof fn lemma_field_names()
        ensures
            "analytics_token"@.len() == 15,
            "experiments"@.len() == 11,
            "friend_suggestion_count"@.len() == 23,
            "guilds"@.len() == 6,
            "notes"@.len() == 5,
            "presences"@.len() == 9,
            "private_channels"@.len() == 16,
            "read_state"@.len() == 10,
            "relationships"@.len() == 13,
            "session_id"@.len() == 10,
            "shard"@.len() == 5,
            "_trace"@.len() == 6,
            "tutorial"@.len() == 8,
            "user"@.len() == 4,
            "user_guild_settings"@.len() == 19,
            "user_settings"@.len() == 13,
            "v"@.len() == 1,
            "notes"@[0] == 'n',
            "shard"@[0] == 's',
            "guilds"@[0] == 'g',
            "_trace"@[0] == '_',
            "read_state"@[0] == 'r',
            "session_id"@[0] == 's',
            "relationships"@[0] == 'r',
            "user_settings"@[0] == 'u',
    {
        reveal_strlit("analytics_token");
        reveal_strlit("experiments");
        reveal_strlit("friend_suggestion_count");
        reveal_strlit("guilds");
        reveal_strlit("notes");
        reveal_strlit("presences");
        reveal_strlit("private_channels");
        reveal_strlit("read_state");
        reveal_strlit("relationships");
        reveal_strlit("session_id");
        reveal_strlit("shard");
        reveal_strlit("_trace");
        reveal_strlit("tutorial");
        reveal_strlit("user");
        reveal_strlit("user_guild_settings");
        reveal_strlit("user_settings");
        reveal_strlit("v");
    }

    /// A mapping that holds the required fields of a session start and no other, each with a
    /// value that decodes, is decoded.
    pub proof fn lemma_minimal_decodes(source: Map<Seq<char>, Value>)
        requires
            source.dom() =~= set![
                "guilds"@,
                "presences"@,
                "private_channels"@,
                "relationships"@,
                "session_id"@,
                "user"@,
                "user_settings"@,
                "v"@,
            ],
            <Vec<PossibleGuild<Guild>>>::decoded(source["guilds"@]) is Ok,
            <IdMap<Presence>>::decoded(source["presences"@]) is Ok,
            <IdMap<Channel>>::decoded(source["private_channels"@]) is Ok,
            <IdMap<Relationship>>::decoded(source["relationships"@]) is Ok,
            String::decoded(source["session_id"@]) is Ok,
            CurrentUser::decoded(source["user"@]) is Ok,
            <Filled<UserSettings>>::decoded(source["user_settings"@]) is Ok,
            u64::decoded(source["v"@]) is Ok,
        ensures
            Ready::from_fields(source) is Ok,
    {
        Ready::lemma_field_names();
    }

    /// Without one of its required fields, a mapping that was decoded as a session start fails,
    /// and the error names exactly the field that is gone.
    pub proof fn lemma_missing_required_field(source: Map<Seq<char>, Value>)
        requires
            Ready::from_fields(source) is Ok,
        ensures
            fails_with(
                Ready::from_fields(source.remove("guilds"@)),
                Error::MissingField("guilds"),
            ),
            fails_with(
                Ready::from_fields(source.remove("presences"@)),
                Error::MissingField("presences"),
            ),
            fails_with(
                Ready::from_fields(source.remove("private_channels"@)),
                Error::MissingField("private_channels"),
            ),
            fails_with(
                Ready::from_fields(source.remove("relationships"@)),
                Error::MissingField("relationships"),
            ),
            fails_with(
                Ready::from_fields(source.remove("session_id"@)),
                Error::MissingField("session_id"),
            ),
            fails_with(
                Ready::from_fields(source.remove("user"@)),
                Error::MissingField("user"),
            ),
            fails_with(
                Ready::from_fields(source.remove("user_settings"@)),
                Error::MissingField("user_settings"),
            ),
            fails_with(
                Ready::from_fields(source.remove("v"@)),
                Error::MissingField("v"),
            ),
    {
        Ready::lemma_field_names();
    }

    /// A field that a session start does not have changes nothing: it is passed over, whatever
    /// it holds.
    pub proof fn lemma_unknown_field_ignored(
        source: Map<Seq<char>, Value>,
        key: Seq<char>,
        value: Value,
    )
        requires
            key != "analytics_token"@,
            key != "experiments"@,
            key != "friend_suggestion_count"@,
            key != "guilds"@,
            key != "notes"@,
            key != "presences"@,
            key != "private_channels"@,
            key != "read_state"@,
            key != "relationships"@,
            key != "session_id"@,
            key != "shard"@,
            key != "_trace"@,
            key != "tutorial"@,
            key != "user"@,
            key != "user_guild_settings"@,
            key != "user_settings"@,
            key != "v"@,
        ensures
            Ready::from_fields(source.insert(key, value)) == Ready::from_fields(source),
    {
    }

    /// An optional field of a session start that is absent is decoded as absent, or as its
    /// default. One that is present with a value of the wrong shape is not taken for absent:
    /// the record fails with that mismatch, which names the field.
    pub proof fn lemma_optional_fields(
        source: Map<Seq<char>, Value>,
        wrong: Value,
        expected: Shape,
    )
        requires
            Ready::from_fields(source) is Ok,
        ensures
            !source.contains_key("analytics_token"@)
                ==> Ready::from_fields(source)->Ok_0.analytics_token is None,
            fails_with(String::decoded(wrong), Error::mismatch(expected)) ==> fails_with(
                Ready::from_fields(source.insert("analytics_token"@, wrong)),
                Error::TypeMismatch(expected, Some("analytics_token")),
            ),
            !source.contains_key("experiments"@)
                ==> Ready::from_fields(source)->Ok_0.experiments is None,
            fails_with(<Vec<Vec<u64>>>::decoded(wrong), Error::mismatch(expected)) ==> fails_with(
                Ready::from_fields(source.insert("experiments"@, wrong)),
                Error::TypeMismatch(expected, Some("experiments")),
            ),
            !source.contains_key("friend_suggestion_count"@)
                ==> Ready::from_fields(source)->Ok_0.friend_suggestion_count is None,
            fails_with(u64::decoded(wrong), Error::mismatch(expected)) ==> fails_with(
                Ready::from_fields(source.insert("friend_suggestion_count"@, wrong)),
                Error::TypeMismatch(expected, Some("friend_suggestion_count")),
            ),
            !source.contains_key("notes"@)
                ==> Ready::from_fields(source)->Ok_0.notes =~= Map::empty(),
            fails_with(Notes::decoded(wrong), Error::mismatch(expected)) ==> fails_with(
                Ready::from_fields(source.insert("notes"@, wrong)),
                Error::TypeMismatch(expected, Some("notes")),
            ),
            !source.contains_key("read_state"@)
                ==> Ready::from_fields(source)->Ok_0.read_state =~= Map::empty(),
            fails_with(
                <IdMap<ReadState>>::decoded(wrong),
                Error::mismatch(expected),
            ) ==> fails_with(
                Ready::from_fields(source.insert("read_state"@, wrong)),
                Error::TypeMismatch(expected, Some("read_state")),
            ),
            !source.contains_key("shard"@) ==> Ready::from_fields(source)->Ok_0.shard is None,
            fails_with(ShardInfo::decoded(wrong), Error::mismatch(expected)) ==> fails_with(
                Ready::from_fields(source.insert("shard"@, wrong)),
                Error::TypeMismatch(expected, Some("shard")),
            ),
            !source.contains_key("_trace"@) ==> Ready::from_fields(source)->Ok_0.trace is None,
            fails_with(<Vec<String>>::decoded(wrong), Error::mismatch(expected)) ==> fails_with(
                Ready::from_fields(source.insert("_trace"@, wrong)),
                Error::TypeMismatch(expected, Some("_trace")),
            ),
            !source.contains_key("tutorial"@) ==> Ready::from_fields(source)->Ok_0.tutorial is None,
            fails_with(Tutorial::decoded(wrong), Error::mismatch(expected)) ==> fails_with(
                Ready::from_fields(source.insert("tutorial"@, wrong)),
                Error::TypeMismatch(expected, Some("tutorial")),
            ),
            !source.contains_key("user_guild_settings"@)
                ==> Ready::from_fields(source)->Ok_0.user_guild_settings is None,
            fails_with(
                <Vec<UserGuildSettings>>::decoded(wrong),
                Error::mismatch(expected),
            ) ==> fails_with(
                Ready::from_fields(source.insert("user_guild_settings"@, wrong)),
                Error::TypeMismatch(expected, Some("user_guild_settings")),
            ),
    {
        Ready::lemma_field_names();
    }
}

impl Decode for Ready {
    open spec fn decoded(value: Value) -> Result<ReadyModel, Error> {
        match value {
            Value::Mapping(source) => Ready::from_fields(source@),
            _ => Err(Error::mismatch(Shape::Mapping)),
        }
    }

    fn decode(value: Value) -> (r: Result<Ready, Error>) {
        let mut source = expect_map(value)?;
        proof {
            Ready::lemma_field_names();
        }
        let analytics_token = optional::<String>(&mut source, "analytics_token")?;
        let experiments = optional::<Vec<Vec<u64>>>(&mut source, "experiments")?;
        let friend_suggestion_count = optional::<u64>(&mut source, "friend_suggestion_count")?;
        let guilds = required::<Vec<PossibleGuild<Guild>>>(&mut source, "guilds")?;
        let notes = optional::<Notes>(&mut source, "notes")?;
        let presences = required::<IdMap<Presence>>(&mut source, "presences")?;
        let private_channels = required::<IdMap<Channel>>(&mut source, "private_channels")?;
        let read_state = optional::<IdMap<ReadState>>(&mut source, "read_state")?;
        let relationships = required::<IdMap<Relationship>>(&mut source, "relationships")?;
        let session_id = required::<String>(&mut source, "session_id")?;
        let shard = optional::<ShardInfo>(&mut source, "shard")?;
        let trace = optional::<Vec<String>>(&mut source, "_trace")?;
        let tutorial = optional::<Tutorial>(&mut source, "tutorial")?;
        let user = required::<CurrentUser>(&mut source, "user")?;
        let user_guild_settings = optional::<Vec<UserGuildSettings>>(
            &mut source,
            "user_guild_settings",
        )?;
        let user_settings = required::<Filled<UserSettings>>(&mut source, "user_settings")?;
        let version = required::<u64>(&mut source, "v")?;
        Ok(
            Ready {
                analytics_token,
                experiments,
                friend_suggestion_count,
                guilds,
                notes: match notes {
                    Some(given) => given,
                    None => Notes::new(),
                },
                presences,
                private_channels,
                read_state: match read_state {
                    Some(given) => given,
                    None => no_entries(),
                },
                relationships,
                session_id,
                shard,
                trace,
                tutorial,
                user,
                user_guild_settings,
                user_settings: user_settings.0,
                version,
            },
        )
    }
}

} // verus!
