use discord_decode::decode::Decode;
use discord_decode::error::Error;
use discord_decode::error::Shape;
use discord_decode::ident::ChannelId;
use discord_decode::ident::EmojiId;
use discord_decode::ident::GuildId;
use discord_decode::ident::MessageId;
use discord_decode::ident::RoleId;
use discord_decode::ident::UserId;
use discord_decode::keyed::IdMap;
use discord_decode::keyed::Keyed;
use discord_decode::kinds::ChannelType;
use discord_decode::kinds::Feature;
use discord_decode::kinds::NotificationLevel;
use discord_decode::kinds::OnlineStatus;
use discord_decode::kinds::RelationshipType;
use discord_decode::kinds::VerificationLevel;
use discord_decode::records::any_channel::Channel;
use discord_decode::records::channel::GuildChannel;
use discord_decode::records::channel::PrivateChannel;
use discord_decode::records::channel::ReadState;
use discord_decode::records::gateway::BotGateway;
use discord_decode::records::gateway::Gateway;
use discord_decode::records::gateway::Ready;
use discord_decode::records::guild::Emoji;
use discord_decode::records::guild::Guild;
use discord_decode::records::guild::Member;
use discord_decode::records::guild::Role;
use discord_decode::records::overwrite::PermissionOverwrite;
use discord_decode::records::overwrite::PermissionOverwriteType;
use discord_decode::records::possible::PossibleGuild;
use discord_decode::records::presence::Presence;
use discord_decode::records::session::Notes;
use discord_decode::records::session::ShardInfo;
use discord_decode::records::user::ChannelOverride;
use discord_decode::records::user::CurrentUser;
use discord_decode::records::user::FriendSourceFlags;
use discord_decode::records::user::Relationship;
use discord_decode::records::user::Tutorial;
use discord_decode::records::user::User;
use discord_decode::records::user::UserGuildSettings;
use discord_decode::records::user::UserSettings;
use discord_decode::records::voice::VoiceState;
use discord_decode::scalar::Colour;
use discord_decode::scalar::Discriminator;
use discord_decode::scalar::Permissions;
use discord_decode::value::Mapping;
use discord_decode::value::Value;

fn text(s: &str) -> Value {
    Value::Text(s.to_string())
}

fn mapping(entries: Vec<(&str, Value)>) -> Mapping {
    let mut m = Mapping::new();
    for (key, value) in entries {
        m.insert(key.to_string(), value);
    }
    m
}

fn one<T: Keyed>(record: T) -> IdMap<T> {
    let mut m = IdMap::new();
    let key = record.key();
    m.insert(key, record);
    m
}

fn sample_any_channel() -> Value {
    Value::Mapping(mapping(vec![
        ("id", text("31")),
        ("type", Value::Integer(1)),
        ("recipient", Value::Mapping(minimal_user())),
    ]))
}

fn expected_any_channel() -> Channel {
    Channel::Private(PrivateChannel {
        id: ChannelId(31),
        last_message_id: None,
        last_pin_timestamp: None,
        kind: ChannelType::Private,
        recipient: expected_minimal_user(),
    })
}

fn sample_guild_channels() -> Value {
    let mut channel = minimal_guild_channel();
    channel.remove("guild_id");
    Value::Sequence(vec![Value::Mapping(channel)])
}

fn expected_guild_channels() -> IdMap<GuildChannel> {
    let mut channel = expected_minimal_guild_channel();
    channel.guild_id = GuildId(1205);
    one(channel)
}

fn sample_notes() -> Value {
    Value::Mapping(mapping(vec![("5", text("a note"))]))
}

fn expected_notes() -> Notes {
    let mut notes = IdMap::new();
    notes.insert(5, "a note".to_string());
    Notes(notes)
}

fn sample_overwrite() -> Value {
    Value::Mapping(mapping(vec![
        ("id", text("77")),
        ("type", text("role")),
        ("allow", Value::Integer(3)),
        ("deny", Value::Integer(4)),
    ]))
}

fn expected_overwrite() -> PermissionOverwrite {
    PermissionOverwrite {
        allow: Permissions(3),
        deny: Permissions(4),
        kind: PermissionOverwriteType::Role(RoleId(77)),
    }
}

fn sample_possible_guild() -> Value {
    Value::Mapping(minimal_guild())
}

fn expected_possible_guild() -> PossibleGuild<Guild> {
    PossibleGuild::Online(expected_minimal_guild())
}

fn sample_presence() -> Value {
    Value::Mapping(mapping(vec![
        ("user", Value::Mapping(mapping(vec![("id", text("7"))]))),
        ("status", text("idle")),
    ]))
}

fn expected_presence() -> Presence {
    Presence {
        game: None,
        last_modified: None,
        nick: None,
        status: OnlineStatus::Idle,
        user_id: UserId(7),
        user: None,
    }
}

fn sample_shard() -> Value {
    Value::Sequence(vec![Value::Integer(0), Value::Integer(2)])
}

fn expected_shard() -> ShardInfo {
    ShardInfo { index: 0, total: 2 }
}

fn minimal_bot_gateway() -> Mapping {
    mapping(vec![
        ("shards", Value::Integer(16)),
        ("url", text("url")),
    ])
}

fn expected_minimal_bot_gateway() -> BotGateway {
    BotGateway {
        shards: 16,
        url: "url".to_string(),
    }
}

fn minimal_gateway() -> Mapping {
    mapping(vec![
        ("url", text("url")),
    ])
}

fn expected_minimal_gateway() -> Gateway {
    Gateway {
        url: "url".to_string(),
    }
}

fn minimal_ready() -> Mapping {
    mapping(vec![
        ("guilds", Value::Sequence(vec![sample_possible_guild()])),
        ("presences", Value::Sequence(vec![sample_presence()])),
        ("private_channels", Value::Sequence(vec![sample_any_channel()])),
        ("relationships", Value::Sequence(vec![Value::Mapping(minimal_relationship())])),
        ("session_id", text("session_id")),
        ("user", Value::Mapping(minimal_current_user())),
        ("user_settings", Value::Mapping(minimal_user_settings())),
        ("v", Value::Integer(11)),
    ])
}

fn expected_minimal_ready() -> Ready {
    Ready {
        analytics_token: None,
        experiments: None,
        friend_suggestion_count: None,
        guilds: vec![expected_possible_guild()],
        notes: Notes::new(),
        presences: one(expected_presence()),
        private_channels: one(expected_any_channel()),
        read_state: IdMap::new(),
        relationships: one(expected_minimal_relationship()),
        session_id: "session_id".to_string(),
        shard: None,
        trace: None,
        tutorial: None,
        user: expected_minimal_current_user(),
        user_guild_settings: None,
        user_settings: Some(expected_minimal_user_settings()),
        version: 11,
    }
}

fn minimal_user_settings() -> Mapping {
    mapping(vec![
        ("convert_emoticons", Value::Bool(true)),
        ("enable_tts_command", Value::Bool(true)),
        ("friend_source_flags", Value::Mapping(minimal_friend_source_flags())),
        ("inline_attachment_media", Value::Bool(true)),
        ("inline_embed_media", Value::Bool(true)),
        ("locale", text("locale")),
        ("message_display_compact", Value::Bool(true)),
        ("render_embeds", Value::Bool(true)),
        ("restricted_guilds", Value::Sequence(vec![Value::Integer(2824)])),
        ("show_current_game", Value::Bool(true)),
        ("status", text("dnd")),
        ("theme", text("theme")),
    ])
}

fn expected_minimal_user_settings() -> UserSettings {
    UserSettings {
        convert_emoticons: true,
        enable_tts_command: true,
        friend_source_flags: expected_minimal_friend_source_flags(),
        inline_attachment_media: true,
        inline_embed_media: true,
        locale: "locale".to_string(),
        message_display_compact: true,
        render_embeds: true,
        restricted_guilds: vec![GuildId(2824)],
        show_current_game: true,
        status: OnlineStatus::DoNotDisturb,
        theme: "theme".to_string(),
    }
}

fn minimal_tutorial() -> Mapping {
    mapping(vec![
        ("indicators_confirmed", Value::Sequence(vec![text("indicators_confirmed")])),
        ("indicators_suppressed", Value::Bool(true)),
    ])
}

fn expected_minimal_tutorial() -> Tutorial {
    Tutorial {
        indicators_confirmed: vec!["indicators_confirmed".to_string()],
        indicators_suppressed: true,
    }
}

fn minimal_guild() -> Mapping {
    mapping(vec![
        ("afk_timeout", Value::Integer(21)),
        ("channels", sample_guild_channels()),
        ("default_message_notifications", Value::Integer(39)),
        ("emojis", Value::Sequence(vec![Value::Mapping(minimal_emoji())])),
        ("features", Value::Sequence(vec![text("INVITE_SPLASH")])),
        ("id", text("1205")),
        ("joined_at", text("joined_at")),
        ("large", Value::Bool(true)),
        ("member_count", Value::Integer(22)),
        ("members", Value::Sequence(vec![Value::Mapping(minimal_member())])),
        ("mfa_level", Value::Integer(19)),
        ("name", text("name")),
        ("owner_id", text("1855")),
        ("presences", Value::Sequence(vec![sample_presence()])),
        ("region", text("region")),
        ("roles", Value::Sequence(vec![Value::Mapping(minimal_role())])),
        ("verification_level", Value::Integer(3)),
        ("voice_states", Value::Sequence(vec![Value::Mapping(minimal_voice_state())])),
    ])
}

fn expected_minimal_guild() -> Guild {
    Guild {
        afk_channel_id: None,
        afk_timeout: 21,
        channels: expected_guild_channels(),
        default_message_notifications: 39,
        emojis: one(expected_minimal_emoji()),
        features: vec![Feature::InviteSplash],
        icon: None,
        id: GuildId(1205),
        joined_at: "joined_at".to_string(),
        large: true,
        member_count: 22,
        members: one(expected_minimal_member()),
        mfa_level: 19,
        name: "name".to_string(),
        owner_id: UserId(1855),
        presences: one(expected_presence()),
        region: "region".to_string(),
        roles: one(expected_minimal_role()),
        splash: None,
        verification_level: VerificationLevel::Unrestricted,
        voice_states: one(expected_minimal_voice_state()),
    }
}

fn minimal_relationship() -> Mapping {
    mapping(vec![
        ("id", text("1205")),
        ("type", Value::Integer(4)),
        ("user", Value::Mapping(minimal_user())),
    ])
}

fn expected_minimal_relationship() -> Relationship {
    Relationship {
        id: UserId(1205),
        kind: RelationshipType::OutgoingRequest,
        user: expected_minimal_user(),
    }
}

fn minimal_user() -> Mapping {
    mapping(vec![
        ("id", text("1205")),
        ("discriminator", text("discriminator")),
        ("username", text("username")),
    ])
}

fn expected_minimal_user() -> User {
    User {
        id: UserId(1205),
        avatar: None,
        bot: false,
        discriminator: "discriminator".to_string(),
        name: "username".to_string(),
    }
}

fn minimal_read_state() -> Mapping {
    mapping(vec![
        ("id", text("1205")),
    ])
}

fn expected_minimal_read_state() -> ReadState {
    ReadState {
        id: ChannelId(1205),
        last_message_id: None,
        last_pin_timestamp: None,
        mention_count: 0,
    }
}

fn minimal_current_user() -> Mapping {
    mapping(vec![
        ("id", text("1205")),
        ("discriminator", text("0001")),
        ("mfa_enabled", Value::Bool(true)),
        ("username", text("username")),
        ("verified", Value::Bool(true)),
    ])
}

fn expected_minimal_current_user() -> CurrentUser {
    CurrentUser {
        id: UserId(1205),
        avatar: None,
        bot: false,
        discriminator: Discriminator(1),
        email: None,
        mfa_enabled: true,
        mobile: None,
        name: "username".to_string(),
        verified: true,
    }
}

fn minimal_user_guild_settings() -> Mapping {
    mapping(vec![
        ("channel_overrides", Value::Sequence(vec![Value::Mapping(minimal_channel_override())])),
        ("message_notifications", Value::Integer(3)),
        ("mobile_push", Value::Bool(true)),
        ("muted", Value::Bool(true)),
        ("suppress_everyone", Value::Bool(true)),
    ])
}

fn expected_minimal_user_guild_settings() -> UserGuildSettings {
    UserGuildSettings {
        channel_overrides: vec![expected_minimal_channel_override()],
        guild_id: None,
        message_notifications: NotificationLevel::Parent,
        mobile_push: true,
        muted: true,
        suppress_everyone: true,
    }
}

fn minimal_friend_source_flags() -> Mapping {
    mapping(vec![
    ])
}

fn expected_minimal_friend_source_flags() -> FriendSourceFlags {
    FriendSourceFlags {
        all: false,
        mutual_friends: false,
        mutual_guilds: false,
    }
}

fn minimal_member() -> Mapping {
    mapping(vec![
        ("deaf", Value::Bool(true)),
        ("joined_at", text("joined_at")),
        ("mute", Value::Bool(true)),
        ("roles", Value::Sequence(vec![Value::Integer(1549)])),
        ("user", Value::Mapping(minimal_user())),
    ])
}

fn expected_minimal_member() -> Member {
    Member {
        deaf: true,
        joined_at: "joined_at".to_string(),
        mute: true,
        nick: None,
        roles: vec![RoleId(1549)],
        user: expected_minimal_user(),
    }
}

fn minimal_emoji() -> Mapping {
    mapping(vec![
        ("id", text("1205")),
        ("name", text("name")),
        ("managed", Value::Bool(true)),
        ("require_colons", Value::Bool(true)),
        ("roles", Value::Sequence(vec![Value::Integer(1549)])),
    ])
}

fn expected_minimal_emoji() -> Emoji {
    Emoji {
        id: EmojiId(1205),
        name: "name".to_string(),
        managed: true,
        require_colons: true,
        roles: vec![RoleId(1549)],
    }
}

fn minimal_guild_channel() -> Mapping {
    mapping(vec![
        ("id", text("1205")),
        ("guild_id", text("1833")),
        ("type", Value::Integer(3)),
        ("name", text("name")),
        ("permission_overwrites", Value::Sequence(vec![sample_overwrite()])),
        ("position", Value::Integer(-8)),
    ])
}

fn expected_minimal_guild_channel() -> GuildChannel {
    GuildChannel {
        id: ChannelId(1205),
        bitrate: None,
        guild_id: GuildId(1833),
        kind: ChannelType::Voice,
        last_message_id: None,
        last_pin_timestamp: None,
        name: "name".to_string(),
        permission_overwrites: vec![expected_overwrite()],
        position: -8,
        topic: None,
        user_limit: None,
    }
}

fn minimal_channel_override() -> Mapping {
    mapping(vec![
        ("channel_id", text("2029")),
        ("message_notifications", Value::Integer(3)),
        ("muted", Value::Bool(true)),
    ])
}

fn expected_minimal_channel_override() -> ChannelOverride {
    ChannelOverride {
        channel_id: ChannelId(2029),
        message_notifications: NotificationLevel::Parent,
        muted: true,
    }
}

fn minimal_voice_state() -> Mapping {
    mapping(vec![
        ("deaf", Value::Bool(true)),
        ("mute", Value::Bool(true)),
        ("self_deaf", Value::Bool(true)),
        ("self_mute", Value::Bool(true)),
        ("session_id", text("session_id")),
        ("suppress", Value::Bool(true)),
        ("user_id", Value::Integer(1747)),
    ])
}

fn expected_minimal_voice_state() -> VoiceState {
    VoiceState {
        channel_id: None,
        deaf: true,
        mute: true,
        self_deaf: true,
        self_mute: true,
        session_id: "session_id".to_string(),
        suppress: true,
        token: None,
        user_id: UserId(1747),
    }
}

fn minimal_role() -> Mapping {
    mapping(vec![
        ("id", text("1205")),
        ("color", Value::Integer(0x336699)),
        ("hoist", Value::Bool(true)),
        ("managed", Value::Bool(true)),
        ("mentionable", Value::Bool(true)),
        ("name", text("name")),
        ("permissions", Value::Integer(8)),
        ("position", Value::Integer(-8)),
    ])
}

fn expected_minimal_role() -> Role {
    Role {
        id: RoleId(1205),
        colour: Colour(0x336699),
        hoist: true,
        managed: true,
        mentionable: true,
        name: "name".to_string(),
        permissions: Permissions(8),
        position: -8,
    }
}

fn full_ready() -> Mapping {
    mapping(vec![
        ("analytics_token", text("analytics_token")),
        ("experiments", Value::Sequence(vec![Value::Sequence(vec![Value::Integer(21)])])),
        ("friend_suggestion_count", Value::Integer(33)),
        ("guilds", Value::Sequence(vec![sample_possible_guild()])),
        ("notes", sample_notes()),
        ("presences", Value::Sequence(vec![sample_presence()])),
        ("private_channels", Value::Sequence(vec![sample_any_channel()])),
        ("read_state", Value::Sequence(vec![Value::Mapping(minimal_read_state())])),
        ("relationships", Value::Sequence(vec![Value::Mapping(minimal_relationship())])),
        ("session_id", text("session_id")),
        ("shard", sample_shard()),
        ("_trace", Value::Sequence(vec![text("_trace")])),
        ("tutorial", Value::Mapping(minimal_tutorial())),
        ("user", Value::Mapping(minimal_current_user())),
        (
            "user_guild_settings",
            Value::Sequence(vec![Value::Mapping(minimal_user_guild_settings())]),
        ),
        ("user_settings", Value::Mapping(minimal_user_settings())),
        ("v", Value::Integer(11)),
    ])
}

fn expected_full_ready() -> Ready {
    Ready {
        analytics_token: Some("analytics_token".to_string()),
        experiments: Some(vec![vec![21]]),
        friend_suggestion_count: Some(33),
        guilds: vec![expected_possible_guild()],
        notes: expected_notes(),
        presences: one(expected_presence()),
        private_channels: one(expected_any_channel()),
        read_state: one(expected_minimal_read_state()),
        relationships: one(expected_minimal_relationship()),
        session_id: "session_id".to_string(),
        shard: Some(expected_shard()),
        trace: Some(vec!["_trace".to_string()]),
        tutorial: Some(expected_minimal_tutorial()),
        user: expected_minimal_current_user(),
        user_guild_settings: Some(vec![expected_minimal_user_guild_settings()]),
        user_settings: Some(expected_minimal_user_settings()),
        version: 11,
    }
}

#[test]
fn bot_gateway_minimal_decodes() {
    assert_eq!(
        BotGateway::decode(Value::Mapping(minimal_bot_gateway())),
        Ok(expected_minimal_bot_gateway())
    );
}

#[test]
fn bot_gateway_ignores_unknown_fields() {
    let mut source = minimal_bot_gateway();
    source.insert("not_a_known_field".to_string(), Value::Integer(1));
    assert_eq!(BotGateway::decode(Value::Mapping(source)), Ok(expected_minimal_bot_gateway()));
}

#[test]
fn bot_gateway_missing_required_fields() {
    for key in ["shards", "url"] {
        let mut source = minimal_bot_gateway();
        assert!(source.remove(key).is_some());
        assert_eq!(BotGateway::decode(Value::Mapping(source)), Err(Error::MissingField(key)));
    }
}

#[test]
fn bot_gateway_from_no_mapping() {
    assert_eq!(BotGateway::decode(Value::Null), Err(Error::TypeMismatch(Shape::Mapping, None)));
}

#[test]
fn gateway_minimal_decodes() {
    assert_eq!(Gateway::decode(Value::Mapping(minimal_gateway())), Ok(expected_minimal_gateway()));
}

#[test]
fn gateway_ignores_unknown_fields() {
    let mut source = minimal_gateway();
    source.insert("not_a_known_field".to_string(), Value::Integer(1));
    assert_eq!(Gateway::decode(Value::Mapping(source)), Ok(expected_minimal_gateway()));
}

#[test]
fn gateway_missing_required_fields() {
    for key in ["url"] {
        let mut source = minimal_gateway();
        assert!(source.remove(key).is_some());
        assert_eq!(Gateway::decode(Value::Mapping(source)), Err(Error::MissingField(key)));
    }
}

#[test]
fn gateway_from_no_mapping() {
    assert_eq!(Gateway::decode(Value::Null), Err(Error::TypeMismatch(Shape::Mapping, None)));
}

#[test]
fn ready_minimal_decodes() {
    assert_eq!(Ready::decode(Value::Mapping(minimal_ready())), Ok(expected_minimal_ready()));
}

#[test]
fn ready_with_every_field_decodes() {
    assert_eq!(Ready::decode(Value::Mapping(full_ready())), Ok(expected_full_ready()));
}

#[test]
fn ready_ignores_unknown_fields() {
    let mut source = minimal_ready();
    source.insert("not_a_known_field".to_string(), Value::Integer(1));
    assert_eq!(Ready::decode(Value::Mapping(source)), Ok(expected_minimal_ready()));
}

#[test]
fn ready_missing_required_fields() {
    let keys = [
        "guilds",
        "presences",
        "private_channels",
        "relationships",
        "session_id",
        "user",
        "user_settings",
        "v",
    ];
    for key in keys {
        let mut source = minimal_ready();
        assert!(source.remove(key).is_some());
        assert_eq!(Ready::decode(Value::Mapping(source)), Err(Error::MissingField(key)));
    }
}

#[test]
fn ready_optional_fields_of_wrong_shape() {
    let cases = [
        ("analytics_token", Shape::Text),
        ("experiments", Shape::Sequence),
        ("friend_suggestion_count", Shape::Unsigned64),
        ("notes", Shape::Mapping),
        ("read_state", Shape::Sequence),
        ("shard", Shape::Sequence),
        ("_trace", Shape::Sequence),
        ("tutorial", Shape::Mapping),
        ("user_guild_settings", Shape::Sequence),
    ];
    for (key, shape) in cases {
        let mut source = minimal_ready();
        source.insert(key.to_string(), Value::Null);
        assert_eq!(
            Ready::decode(Value::Mapping(source)),
            Err(Error::TypeMismatch(shape, Some(key)))
        );
    }
}

#[test]
fn ready_from_no_mapping() {
    assert_eq!(Ready::decode(Value::Null), Err(Error::TypeMismatch(Shape::Mapping, None)));
}
