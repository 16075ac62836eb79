use discord_decode::decode::Decode;
use discord_decode::error::Error;
use discord_decode::error::Shape;
use discord_decode::ident::ChannelId;
use discord_decode::ident::GuildId;
use discord_decode::ident::MessageId;
use discord_decode::ident::RoleId;
use discord_decode::ident::UserId;
use discord_decode::keyed::IdMap;
use discord_decode::keyed::Keyed;
use discord_decode::kinds::ChannelType;
use discord_decode::records::channel::Group;
use discord_decode::records::channel::GuildChannel;
use discord_decode::records::channel::PrivateChannel;
use discord_decode::records::channel::ReadState;
use discord_decode::records::overwrite::PermissionOverwrite;
use discord_decode::records::overwrite::PermissionOverwriteType;
use discord_decode::records::user::User;
use discord_decode::scalar::Permissions;
use discord_decode::value::Mapping;
use discord_decode::value::Value;

fn text(s: &str) -> Value {
    Value::Text(s.to_string())
}

fn mapping(entries: Vec<(&str, Value)>) -> Mapping {
    let mut m = Mapping::new();
    for (key, value) in entries {
        m.insert(key.to_string(), value);
    }
    m
}

fn one<T: Keyed>(record: T) -> IdMap<T> {
    let mut m = IdMap::new();
    let key = record.key();
    m.insert(key, record);
    m
}

fn sample_overwrite() -> Value {
    Value::Mapping(mapping(vec![
        ("id", text("77")),
        ("type", text("role")),
        ("allow", Value::Integer(3)),
        ("deny", Value::Integer(4)),
    ]))
}

fn expected_overwrite() -> PermissionOverwrite {
    PermissionOverwrite {
        allow: Permissions(3),
        deny: Permissions(4),
        kind: PermissionOverwriteType::Role(RoleId(77)),
    }
}

fn minimal_group() -> Mapping {
    mapping(vec![
        ("id", text("1205")),
        ("owner_id", text("1855")),
        ("recipients", Value::Sequence(vec![Value::Mapping(minimal_user())])),
    ])
}

fn expected_minimal_group() -> Group {
    Group {
        channel_id: ChannelId(1205),
        icon: None,
        last_message_id: None,
        last_pin_timestamp: None,
        name: None,
        owner_id: UserId(1855),
        recipients: one(expected_minimal_user()),
    }
}

fn minimal_guild_channel() -> Mapping {
    mapping(vec![
        ("id", text("1205")),
        ("guild_id", text("1833")),
        ("type", Value::Integer(3)),
        ("name", text("name")),
        ("permission_overwrites", Value::Sequence(vec![sample_overwrite()])),
        ("position", Value::Integer(-8)),
    ])
}

fn expected_minimal_guild_channel() -> GuildChannel {
    GuildChannel {
        id: ChannelId(1205),
        bitrate: None,
        guild_id: GuildId(1833),
        kind: ChannelType::Voice,
        last_message_id: None,
        last_pin_timestamp: None,
        name: "name".to_string(),
        permission_overwrites: vec![expected_overwrite()],
        position: -8,
        topic: None,
        user_limit: None,
    }
}

fn minimal_private_channel() -> Mapping {
    mapping(vec![
        ("id", text("1205")),
        ("type", Value::Integer(3)),
        ("recipients", Value::Sequence(vec![Value::Mapping(minimal_user())])),
    ])
}

fn expected_minimal_private_channel() -> PrivateChannel {
    PrivateChannel {
        id: ChannelId(1205),
        last_message_id: None,
        last_pin_timestamp: None,
        kind: ChannelType::Voice,
        recipient: expected_minimal_user(),
    }
}

fn minimal_read_state() -> Mapping {
    mapping(vec![
        ("id", text("1205")),
    ])
}

fn expected_minimal_read_state() -> ReadState {
    ReadState {
        id: ChannelId(1205),
        last_message_id: None,
        last_pin_timestamp: None,
        mention_count: 0,
    }
}

fn minimal_user() -> Mapping {
    mapping(vec![
        ("id", text("1205")),
        ("discriminator", text("discriminator")),
        ("username", text("username")),
    ])
}

fn expected_minimal_user() -> User {
    User {
        id: UserId(1205),
        avatar: None,
        bot: false,
        discriminator: "discriminator".to_string(),
        name: "username".to_string(),
    }
}

fn full_group() -> Mapping {
    mapping(vec![
        ("id", text("1205")),
        ("icon", text("icon")),
        ("last_message_id", Value::Integer(2572)),
        ("last_pin_timestamp", text("last_pin_timestamp")),
        ("name", text("name")),
        ("owner_id", text("1855")),
        ("recipients", Value::Sequence(vec![Value::Mapping(minimal_user())])),
    ])
}

fn expected_full_group() -> Group {
    Group {
        channel_id: ChannelId(1205),
        icon: Some("icon".to_string()),
        last_message_id: Some(MessageId(2572)),
        last_pin_timestamp: Some("last_pin_timestamp".to_string()),
        name: Some("name".to_string()),
        owner_id: UserId(1855),
        recipients: one(expected_minimal_user()),
    }
}

fn full_guild_channel() -> Mapping {
    mapping(vec![
        ("id", text("1205")),
        ("bitrate", Value::Integer(17)),
        ("guild_id", text("1833")),
        ("type", Value::Integer(3)),
        ("last_message_id", Value::Integer(2572)),
        ("last_pin_timestamp", text("last_pin_timestamp")),
        ("name", text("name")),
        ("permission_overwrites", Value::Sequence(vec![sample_overwrite()])),
        ("position", Value::Integer(-8)),
        ("topic", text("topic")),
        ("user_limit", Value::Integer(20)),
    ])
}

fn expected_full_guild_channel() -> GuildChannel {
    GuildChannel {
        id: ChannelId(1205),
        bitrate: Some(17),
        guild_id: GuildId(1833),
        kind: ChannelType::Voice,
        last_message_id: Some(MessageId(2572)),
        last_pin_timestamp: Some("last_pin_timestamp".to_string()),
        name: "name".to_string(),
        permission_overwrites: vec![expected_overwrite()],
        position: -8,
        topic: Some("topic".to_string()),
        user_limit: Some(20),
    }
}

fn full_private_channel() -> Mapping {
    mapping(vec![
        ("id", text("1205")),
        ("last_message_id", Value::Integer(2572)),
        ("last_pin_timestamp", text("last_pin_timestamp")),
        ("type", Value::Integer(3)),
        ("recipients", Value::Sequence(vec![Value::Mapping(minimal_user())])),
    ])
}

fn expected_full_private_channel() -> PrivateChannel {
    PrivateChannel {
        id: ChannelId(1205),
        last_message_id: Some(MessageId(2572)),
        last_pin_timestamp: Some("last_pin_timestamp".to_string()),
        kind: ChannelType::Voice,
        recipient: expected_minimal_user(),
    }
}

fn full_read_state() -> Mapping {
    mapping(vec![
        ("id", text("1205")),
        ("last_message_id", Value::Integer(2572)),
        ("last_pin_timestamp", text("last_pin_timestamp")),
        ("mention_count", Value::Integer(23)),
    ])
}

fn expected_full_read_state() -> ReadState {
    ReadState {
        id: ChannelId(1205),
        last_message_id: Some(MessageId(2572)),
        last_pin_timestamp: Some("last_pin_timestamp".to_string()),
        mention_count: 23,
    }
}

#[test]
fn group_minimal_decodes() {
    assert_eq!(Group::decode(Value::Mapping(minimal_group())), Ok(expected_minimal_group()));
}

#[test]
fn group_with_every_field_decodes() {
    assert_eq!(Group::decode(Value::Mapping(full_group())), Ok(expected_full_group()));
}

#[test]
fn group_ignores_unknown_fields() {
    let mut source = minimal_group();
    source.insert("not_a_known_field".to_string(), Value::Integer(1));
    assert_eq!(Group::decode(Value::Mapping(source)), Ok(expected_minimal_group()));
}

#[test]
fn group_missing_required_fields() {
    for key in ["id", "owner_id", "recipients"] {
        let mut source = minimal_group();
        assert!(source.remove(key).is_some());
        assert_eq!(Group::decode(Value::Mapping(source)), Err(Error::MissingField(key)));
    }
}

#[test]
fn group_optional_fields_of_wrong_shape() {
    let cases = [
        ("icon", Shape::Text),
        ("last_message_id", Shape::Identifier),
        ("last_pin_timestamp", Shape::Text),
        ("name", Shape::Text),
    ];
    for (key, shape) in cases {
        let mut source = minimal_group();
        source.insert(key.to_string(), Value::Null);
        assert_eq!(
            Group::decode(Value::Mapping(source)),
            Err(Error::TypeMismatch(shape, Some(key)))
        );
    }
}

#[test]
fn group_from_no_mapping() {
    assert_eq!(Group::decode(Value::Null), Err(Error::TypeMismatch(Shape::Mapping, None)));
}

#[test]
fn guild_channel_minimal_decodes() {
    assert_eq!(
        GuildChannel::decode(Value::Mapping(minimal_guild_channel())),
        Ok(expected_minimal_guild_channel())
    );
}

#[test]
fn guild_channel_with_every_field_decodes() {
    assert_eq!(
        GuildChannel::decode(Value::Mapping(full_guild_channel())),
        Ok(expected_full_guild_channel())
    );
}

#[test]
fn guild_channel_ignores_unknown_fields() {
    let mut source = minimal_guild_channel();
    source.insert("not_a_known_field".to_string(), Value::Integer(1));
    assert_eq!(GuildChannel::decode(Value::Mapping(source)), Ok(expected_minimal_guild_channel()));
}

#[test]
fn guild_channel_missing_required_fields() {
    for key in ["guild_id", "id", "name", "position", "type", "permission_overwrites"] {
        let mut source = minimal_guild_channel();
        assert!(source.remove(key).is_some());
        assert_eq!(GuildChannel::decode(Value::Mapping(source)), Err(Error::MissingField(key)));
    }
}

#[test]
fn guild_channel_optional_fields_of_wrong_shape() {
    let cases = [
        ("topic", Shape::Text),
        ("last_message_id", Shape::Identifier),
        ("bitrate", Shape::Unsigned64),
        ("user_limit", Shape::Unsigned64),
        ("last_pin_timestamp", Shape::Text),
    ];
    for (key, shape) in cases {
        let mut source = minimal_guild_channel();
        source.insert(key.to_string(), Value::Null);
        assert_eq!(
            GuildChannel::decode(Value::Mapping(source)),
            Err(Error::TypeMismatch(shape, Some(key)))
        );
    }
}

#[test]
fn guild_channel_from_no_mapping() {
    assert_eq!(GuildChannel::decode(Value::Null), Err(Error::TypeMismatch(Shape::Mapping, None)));
}

#[test]
fn private_channel_minimal_decodes() {
    assert_eq!(
        PrivateChannel::decode(Value::Mapping(minimal_private_channel())),
        Ok(expected_minimal_private_channel())
    );
}

#[test]
fn private_channel_with_every_field_decodes() {
    assert_eq!(
        PrivateChannel::decode(Value::Mapping(full_private_channel())),
        Ok(expected_full_private_channel())
    );
}

#[test]
fn private_channel_ignores_unknown_fields() {
    let mut source = minimal_private_channel();
    source.insert("not_a_known_field".to_string(), Value::Integer(1));
    assert_eq!(
        PrivateChannel::decode(Value::Mapping(source)),
        Ok(expected_minimal_private_channel())
    );
}

#[test]
fn private_channel_missing_required_fields() {
    for key in ["recipients", "id", "type"] {
        let mut source = minimal_private_channel();
        assert!(source.remove(key).is_some());
        assert_eq!(PrivateChannel::decode(Value::Mapping(source)), Err(Error::MissingField(key)));
    }
}

#[test]
fn private_channel_optional_fields_of_wrong_shape() {
    let cases = [
        ("last_message_id", Shape::Identifier),
        ("last_pin_timestamp", Shape::Text),
    ];
    for (key, shape) in cases {
        let mut source = minimal_private_channel();
        source.insert(key.to_string(), Value::Null);
        assert_eq!(
            PrivateChannel::decode(Value::Mapping(source)),
            Err(Error::TypeMismatch(shape, Some(key)))
        );
    }
}

#[test]
fn private_channel_from_no_mapping() {
    assert_eq!(PrivateChannel::decode(Value::Null), Err(Error::TypeMismatch(Shape::Mapping, None)));
}

#[test]
fn read_state_minimal_decodes() {
    assert_eq!(
        ReadState::decode(Value::Mapping(minimal_read_state())),
        Ok(expected_minimal_read_state())
    );
}

#[test]
fn read_state_with_every_field_decodes() {
    assert_eq!(
        ReadState::decode(Value::Mapping(full_read_state())),
        Ok(expected_full_read_state())
    );
}

#[test]
fn read_state_ignores_unknown_fields() {
    let mut source = minimal_read_state();
    source.insert("not_a_known_field".to_string(), Value::Integer(1));
    assert_eq!(ReadState::decode(Value::Mapping(source)), Ok(expected_minimal_read_state()));
}

#[test]
fn read_state_missing_required_fields() {
    for key in ["id"] {
        let mut source = minimal_read_state();
        assert!(source.remove(key).is_some());
        assert_eq!(ReadState::decode(Value::Mapping(source)), Err(Error::MissingField(key)));
    }
}

#[test]
fn read_state_optional_fields_of_wrong_shape() {
    let cases = [
        ("last_message_id", Shape::Identifier),
        ("last_pin_timestamp", Shape::Text),
        ("mention_count", Shape::Unsigned64),
    ];
    for (key, shape) in cases {
        let mut source = minimal_read_state();
        source.insert(key.to_string(), Value::Null);
        assert_eq!(
            ReadState::decode(Value::Mapping(source)),
            Err(Error::TypeMismatch(shape, Some(key)))
        );
    }
}

#[test]
fn read_state_from_no_mapping() {
    assert_eq!(ReadState::decode(Value::Null), Err(Error::TypeMismatch(Shape::Mapping, None)));
}
