use discord_decode::decode::Decode;
use discord_decode::error::Error;
use discord_decode::error::Raw;
use discord_decode::error::Shape;
use discord_decode::ident::ChannelId;
use discord_decode::ident::EmojiId;
use discord_decode::ident::GuildId;
use discord_decode::ident::MessageId;
use discord_decode::ident::RoleId;
use discord_decode::ident::UserId;
use discord_decode::keyed::IdMap;
use discord_decode::keyed::Keyed;
use discord_decode::kinds::ChannelType;
use discord_decode::kinds::MessageType;
use discord_decode::records::any_channel::Channel;
use discord_decode::records::channel::Group;
use discord_decode::records::channel::GuildChannel;
use discord_decode::records::channel::PrivateChannel;
use discord_decode::records::guild::GuildPrune;
use discord_decode::records::message::Message;
use discord_decode::records::message::MessageReaction;
use discord_decode::records::overwrite::PermissionOverwrite;
use discord_decode::records::overwrite::PermissionOverwriteType;
use discord_decode::records::possible::PossibleGuild;
use discord_decode::records::reaction::ReactionType;
use discord_decode::records::session::Notes;
use discord_decode::records::session::ShardInfo;
use discord_decode::records::user::User;
use discord_decode::scalar::Permissions;
use discord_decode::value::Mapping;
use discord_decode::value::Value;

fn text(s: &str) -> Value {
    Value::Text(s.to_string())
}

fn mapping(entries: Vec<(&str, Value)>) -> Mapping {
    let mut m = Mapping::new();
    for (key, value) in entries {
        m.insert(key.to_string(), value);
    }
    m
}

fn object(entries: Vec<(&str, Value)>) -> Value {
    Value::Mapping(mapping(entries))
}

fn alice() -> Vec<(&'static str, Value)> {
    vec![("id", text("100")), ("username", text("alice")), ("discriminator", text("0001"))]
}

fn alice_decoded() -> User {
    User {
        id: UserId(100),
        avatar: None,
        bot: false,
        discriminator: "0001".to_string(),
        name: "alice".to_string(),
    }
}

#[test]
fn user_without_bot_and_avatar() {
    let user = User::decode(object(alice())).unwrap();
    assert_eq!(user.id, UserId(100));
    assert_eq!(user.name, "alice");
    assert_eq!(user.discriminator, "0001");
    assert!(!user.bot);
    assert_eq!(user.avatar, None);
    assert_eq!(user, alice_decoded());
}

#[test]
fn user_with_bot_and_avatar() {
    let mut fields = alice();
    fields.push(("bot", Value::Bool(true)));
    fields.push(("avatar", text("a1b2")));
    let user = User::decode(object(fields)).unwrap();
    assert!(user.bot);
    assert_eq!(user.avatar, Some("a1b2".to_string()));
}

#[test]
fn user_with_a_numeric_id() {
    let mut m = mapping(alice());
    m.insert("id".to_string(), Value::Integer(100));
    assert_eq!(User::decode(Value::Mapping(m)), Ok(alice_decoded()));
}

#[test]
fn user_with_an_avatar_of_the_wrong_shape() {
    let mut fields = alice();
    fields.push(("avatar", Value::Integer(5)));
    assert_eq!(
        User::decode(object(fields)),
        Err(Error::TypeMismatch(Shape::Text, Some("avatar")))
    );
}

#[test]
fn user_with_a_null_avatar_is_not_taken_for_one_without() {
    let mut fields = alice();
    fields.push(("avatar", Value::Null));
    assert_eq!(
        User::decode(object(fields)),
        Err(Error::TypeMismatch(Shape::Text, Some("avatar")))
    );
}

#[test]
fn user_fails_at_the_first_faulty_field() {
    let value = object(vec![("username", Value::Integer(1)), ("avatar", Value::Integer(2))]);
    assert_eq!(User::decode(value), Err(Error::MissingField("id")));
    let value = object(vec![
        ("id", text("1")),
        ("username", Value::Integer(1)),
        ("avatar", Value::Integer(2)),
    ]);
    assert_eq!(User::decode(value), Err(Error::TypeMismatch(Shape::Text, Some("avatar"))));
    let value = object(vec![("id", text("1")), ("username", Value::Integer(1))]);
    assert_eq!(User::decode(value), Err(Error::MissingField("discriminator")));
    let value = object(vec![
        ("id", text("1")),
        ("discriminator", text("1")),
        ("username", Value::Integer(1)),
    ]);
    assert_eq!(User::decode(value), Err(Error::TypeMismatch(Shape::Text, Some("username"))));
}

#[test]
fn user_with_an_id_that_is_no_numeral() {
    let mut m = mapping(alice());
    m.insert("id".to_string(), text("alice"));
    assert_eq!(
        User::decode(Value::Mapping(m)),
        Err(Error::TypeMismatch(Shape::Identifier, Some("id")))
    );
}

fn message_fields() -> Vec<(&'static str, Value)> {
    vec![
        ("id", text("9001")),
        ("attachments", Value::Sequence(vec![])),
        ("author", object(alice())),
        ("channel_id", Value::Integer(77)),
        ("content", text("hello")),
        ("embeds", Value::Sequence(vec![])),
        ("type", Value::Integer(0)),
        ("mention_everyone", Value::Bool(false)),
        ("mention_roles", Value::Sequence(vec![text("5"), Value::Integer(6)])),
        ("mentions", Value::Sequence(vec![object(alice())])),
        ("pinned", Value::Bool(false)),
        ("timestamp", text("2017-01-01T00:00:00Z")),
        ("tts", Value::Bool(false)),
    ]
}

#[test]
fn message_end_to_end() {
    let mut fields = message_fields();
    fields.push((
        "reactions",
        Value::Sequence(vec![object(vec![
            ("count", Value::Integer(2)),
            ("me", Value::Bool(true)),
            ("emoji", object(vec![("name", text("wave")), ("id", text("31"))])),
        ])]),
    ));
    let message = Message::decode(object(fields)).unwrap();
    assert_eq!(message.id, MessageId(9001));
    assert_eq!(message.author, alice_decoded());
    assert_eq!(message.channel_id, ChannelId(77));
    assert_eq!(message.content, "hello");
    assert_eq!(message.kind, MessageType::Regular);
    assert_eq!(message.mention_roles, vec![RoleId(5), RoleId(6)]);
    assert_eq!(message.mentions, vec![alice_decoded()]);
    assert!(!message.hit);
    assert_eq!(message.webhook_id, None);
    assert_eq!(
        message.reactions,
        vec![MessageReaction {
            count: 2,
            me: true,
            reaction_type: ReactionType::Custom { id: EmojiId(31), name: "wave".to_string() },
        }]
    );
}

#[test]
fn message_with_a_faulty_author_names_the_path() {
    let mut m = mapping(message_fields());
    m.insert("author".to_string(), object(vec![("id", text("1")), ("username", text("a"))]));
    assert_eq!(
        Message::decode(Value::Mapping(m)),
        Err(Error::NestedDecodeFailure("author", Box::new(Error::MissingField("discriminator"))))
    );
    let mut m = mapping(message_fields());
    m.insert("author".to_string(), text("alice"));
    assert_eq!(
        Message::decode(Value::Mapping(m)),
        Err(Error::TypeMismatch(Shape::Mapping, Some("author")))
    );
}

#[test]
fn message_with_a_faulty_element_in_a_sequence() {
    let mut m = mapping(message_fields());
    m.insert("mention_roles".to_string(), Value::Sequence(vec![text("5"), text("six")]));
    assert_eq!(
        Message::decode(Value::Mapping(m)),
        Err(Error::TypeMismatch(Shape::Identifier, Some("mention_roles")))
    );
    let mut m = mapping(message_fields());
    m.insert("mentions".to_string(), Value::Sequence(vec![object(alice()), object(vec![])]));
    assert_eq!(
        Message::decode(Value::Mapping(m)),
        Err(Error::NestedDecodeFailure("mentions", Box::new(Error::MissingField("id"))))
    );
}

#[test]
fn message_with_an_unknown_kind() {
    let mut m = mapping(message_fields());
    m.insert("type".to_string(), Value::Integer(7));
    assert_eq!(
        Message::decode(Value::Mapping(m)),
        Err(Error::NestedDecodeFailure(
            "type",
            Box::new(Error::InvalidEnumValue("MessageType", Raw::Ordinal(7)))
        ))
    );
}

#[test]
fn reaction_emoji_with_and_without_an_id() {
    assert_eq!(
        ReactionType::decode(object(vec![("name", text("wave"))])),
        Ok(ReactionType::Unicode("wave".to_string()))
    );
    assert_eq!(
        ReactionType::decode(object(vec![("id", Value::Integer(4)), ("name", text("wave"))])),
        Ok(ReactionType::Custom { id: EmojiId(4), name: "wave".to_string() })
    );
}

#[test]
fn reaction_emoji_errors() {
    assert_eq!(
        ReactionType::decode(object(vec![("id", Value::Integer(4))])),
        Err(Error::MissingField("name"))
    );
    assert_eq!(
        ReactionType::decode(object(vec![("id", Value::Bool(true)), ("name", text("wave"))])),
        Err(Error::TypeMismatch(Shape::Identifier, Some("id")))
    );
    assert_eq!(
        ReactionType::decode(object(vec![("id", Value::Bool(true)), ("name", Value::Null)])),
        Err(Error::TypeMismatch(Shape::Text, Some("name")))
    );
    assert_eq!(ReactionType::decode(text("wave")), Err(Error::TypeMismatch(Shape::Mapping, None)));
}

fn overwrite(kind: &str) -> Vec<(&'static str, Value)> {
    vec![
        ("id", text("12")),
        ("type", text(kind)),
        ("allow", Value::Integer(1024)),
        ("deny", Value::Integer(2048)),
    ]
}

#[test]
fn permission_overwrite_for_a_member_and_for_a_role() {
    assert_eq!(
        PermissionOverwrite::decode(object(overwrite("member"))),
        Ok(PermissionOverwrite {
            allow: Permissions(1024),
            deny: Permissions(2048),
            kind: PermissionOverwriteType::Member(UserId(12)),
        })
    );
    assert_eq!(
        PermissionOverwrite::decode(object(overwrite("role"))),
        Ok(PermissionOverwrite {
            allow: Permissions(1024),
            deny: Permissions(2048),
            kind: PermissionOverwriteType::Role(RoleId(12)),
        })
    );
}

#[test]
fn permission_overwrite_errors() {
    assert_eq!(
        PermissionOverwrite::decode(object(overwrite("guild"))),
        Err(Error::NestedDecodeFailure(
            "type",
            Box::new(Error::InvalidEnumValue("OverwriteTarget", Raw::Name("guild".to_string())))
        ))
    );
    for key in ["id", "type", "allow", "deny"] {
        let mut m = mapping(overwrite("role"));
        m.remove(key);
        assert_eq!(PermissionOverwrite::decode(Value::Mapping(m)), Err(Error::MissingField(key)));
    }
    let mut m = mapping(overwrite("role"));
    m.insert("deny".to_string(), text("2048"));
    assert_eq!(
        PermissionOverwrite::decode(Value::Mapping(m)),
        Err(Error::TypeMismatch(Shape::Unsigned64, Some("deny")))
    );
    assert_eq!(
        PermissionOverwrite::decode(Value::Null),
        Err(Error::TypeMismatch(Shape::Mapping, None))
    );
}

fn private_channel(kind: i128) -> Vec<(&'static str, Value)> {
    vec![
        ("id", text("5")),
        ("type", Value::Integer(kind)),
        ("recipients", Value::Sequence(vec![object(alice())])),
    ]
}

fn guild_channel(kind: i128) -> Vec<(&'static str, Value)> {
    vec![
        ("id", text("6")),
        ("guild_id", text("60")),
        ("type", Value::Integer(kind)),
        ("name", text("general")),
        ("permission_overwrites", Value::Sequence(vec![object(overwrite("role"))])),
        ("position", Value::Integer(-1)),
    ]
}

fn group() -> Vec<(&'static str, Value)> {
    vec![
        ("id", text("7")),
        ("type", Value::Integer(0)),
        ("owner_id", text("100")),
        ("recipients", Value::Sequence(vec![object(alice())])),
    ]
}

#[test]
fn channel_is_decoded_by_its_kind() {
    let channel = Channel::decode(object(private_channel(1))).unwrap();
    assert_eq!(
        channel,
        Channel::Private(PrivateChannel {
            id: ChannelId(5),
            last_message_id: None,
            last_pin_timestamp: None,
            kind: ChannelType::Private,
            recipient: alice_decoded(),
        })
    );
    assert_eq!(channel.key(), 5);
    for (ordinal, kind) in [(2, ChannelType::Text), (3, ChannelType::Voice)] {
        let channel = Channel::decode(object(guild_channel(ordinal))).unwrap();
        assert_eq!(
            channel,
            Channel::Guild(GuildChannel {
                id: ChannelId(6),
                bitrate: None,
                guild_id: GuildId(60),
                kind,
                last_message_id: None,
                last_pin_timestamp: None,
                name: "general".to_string(),
                permission_overwrites: vec![PermissionOverwrite {
                    allow: Permissions(1024),
                    deny: Permissions(2048),
                    kind: PermissionOverwriteType::Role(RoleId(12)),
                }],
                position: -1,
                topic: None,
                user_limit: None,
            })
        );
        assert_eq!(channel.key(), 6);
    }
    let channel = Channel::decode(object(group())).unwrap();
    let mut recipients = IdMap::new();
    recipients.insert(100, alice_decoded());
    assert_eq!(
        channel,
        Channel::Group(Group {
            channel_id: ChannelId(7),
            icon: None,
            last_message_id: None,
            last_pin_timestamp: None,
            name: None,
            owner_id: UserId(100),
            recipients,
        })
    );
    assert_eq!(channel.key(), 7);
}

#[test]
fn channel_errors() {
    let mut m = mapping(private_channel(1));
    m.remove("type");
    assert_eq!(Channel::decode(Value::Mapping(m)), Err(Error::MissingField("type")));
    assert_eq!(
        Channel::decode(object(private_channel(4))),
        Err(Error::NestedDecodeFailure(
            "type",
            Box::new(Error::InvalidEnumValue("ChannelType", Raw::Ordinal(4)))
        ))
    );
    let mut m = mapping(private_channel(1));
    m.insert("type".to_string(), text("private"));
    assert_eq!(
        Channel::decode(Value::Mapping(m)),
        Err(Error::TypeMismatch(Shape::Unsigned64, Some("type")))
    );
    assert_eq!(
        Channel::decode(object(private_channel(2))),
        Err(Error::MissingField("guild_id"))
    );
    assert_eq!(
        Channel::decode(object(guild_channel(1))),
        Err(Error::MissingField("recipients"))
    );
    assert_eq!(
        Channel::decode(Value::Sequence(vec![])),
        Err(Error::TypeMismatch(Shape::Mapping, None))
    );
}

#[test]
fn possible_guild_at_hand_and_out_of_reach() {
    let online = <PossibleGuild<GuildPrune>>::decode(object(vec![("pruned", Value::Integer(3))]));
    assert_eq!(online, Ok(PossibleGuild::Online(GuildPrune { pruned: 3 })));
    let online = <PossibleGuild<GuildPrune>>::decode(object(vec![
        ("unavailable", Value::Bool(false)),
        ("pruned", Value::Integer(3)),
    ]));
    assert_eq!(online, Ok(PossibleGuild::Online(GuildPrune { pruned: 3 })));
    let offline = <PossibleGuild<GuildPrune>>::decode(object(vec![
        ("unavailable", Value::Bool(true)),
        ("id", text("81")),
    ]));
    assert_eq!(offline, Ok(PossibleGuild::Offline(GuildId(81))));
}

#[test]
fn possible_guild_errors() {
    assert_eq!(
        <PossibleGuild<GuildPrune>>::decode(object(vec![("unavailable", Value::Bool(true))])),
        Err(Error::MissingField("id"))
    );
    assert_eq!(
        <PossibleGuild<GuildPrune>>::decode(object(vec![
            ("unavailable", Value::Integer(1)),
            ("pruned", Value::Integer(3)),
        ])),
        Err(Error::TypeMismatch(Shape::Boolean, Some("unavailable")))
    );
    assert_eq!(
        <PossibleGuild<GuildPrune>>::decode(object(vec![("id", text("81"))])),
        Err(Error::MissingField("pruned"))
    );
    assert_eq!(
        <PossibleGuild<GuildPrune>>::decode(Value::Null),
        Err(Error::TypeMismatch(Shape::Mapping, None))
    );
}

#[test]
fn shard_is_a_pair_of_numbers() {
    assert_eq!(
        ShardInfo::decode(Value::Sequence(vec![Value::Integer(3), Value::Integer(8)])),
        Ok(ShardInfo { index: 3, total: 8 })
    );
    assert_eq!(
        ShardInfo::decode(Value::Sequence(vec![
            Value::Integer(3),
            Value::Integer(8),
            Value::Integer(9),
            Value::Null,
        ])),
        Ok(ShardInfo { index: 3, total: 8 })
    );
}

#[test]
fn shard_errors() {
    assert_eq!(
        ShardInfo::decode(Value::Sequence(vec![])),
        Err(Error::TypeMismatch(Shape::Pair, None))
    );
    assert_eq!(
        ShardInfo::decode(Value::Sequence(vec![Value::Integer(3)])),
        Err(Error::TypeMismatch(Shape::Pair, None))
    );
    assert_eq!(
        ShardInfo::decode(Value::Sequence(vec![text("3"), Value::Integer(8)])),
        Err(Error::TypeMismatch(Shape::Unsigned64, None))
    );
    assert_eq!(
        ShardInfo::decode(Value::Sequence(vec![Value::Integer(3), Value::Integer(-8)])),
        Err(Error::TypeMismatch(Shape::Unsigned64, None))
    );
    assert_eq!(
        ShardInfo::decode(Value::Integer(3)),
        Err(Error::TypeMismatch(Shape::Sequence, None))
    );
}

#[test]
fn notes_are_kept_under_the_id_in_each_key() {
    let notes = Notes::decode(object(vec![("5", text("five")), ("12", text("twelve"))])).unwrap();
    assert_eq!(notes.0.len(), 2);
    assert_eq!(notes.0.get(5), Some(&"five".to_string()));
    assert_eq!(notes.0.get(12), Some(&"twelve".to_string()));
    assert_eq!(Notes::decode(object(vec![])), Ok(Notes::new()));
    assert_eq!(Notes::new().0.len(), 0);
}

#[test]
fn notes_with_two_keys_for_one_id_keep_the_later() {
    let notes = Notes::decode(object(vec![("5", text("first")), ("05", text("second"))])).unwrap();
    assert_eq!(notes.0.len(), 1);
    assert_eq!(notes.0.get(5), Some(&"second".to_string()));
}

#[test]
fn notes_errors() {
    assert_eq!(
        Notes::decode(object(vec![("5", text("five")), ("bob", text("x"))])),
        Err(Error::TypeMismatch(Shape::Identifier, None))
    );
    assert_eq!(
        Notes::decode(object(vec![("5", Value::Integer(5)), ("bob", text("x"))])),
        Err(Error::TypeMismatch(Shape::Text, None))
    );
    assert_eq!(
        Notes::decode(object(vec![("bob", Value::Integer(5))])),
        Err(Error::TypeMismatch(Shape::Identifier, None))
    );
    assert_eq!(
        Notes::decode(Value::Sequence(vec![])),
        Err(Error::TypeMismatch(Shape::Mapping, None))
    );
}
