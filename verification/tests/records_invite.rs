use discord_decode::decode::Decode;
use discord_decode::error::Error;
use discord_decode::error::Shape;
use discord_decode::ident::ChannelId;
use discord_decode::ident::GuildId;
use discord_decode::ident::UserId;
use discord_decode::kinds::ChannelType;
use discord_decode::records::invite::Invite;
use discord_decode::records::invite::InviteChannel;
use discord_decode::records::invite::InviteGuild;
use discord_decode::records::invite::RichInvite;
use discord_decode::records::user::User;
use discord_decode::value::Mapping;
use discord_decode::value::Value;

fn text(s: &str) -> Value {
    Value::Text(s.to_string())
}

fn mapping(entries: Vec<(&str, Value)>) -> Mapping {
    let mut m = Mapping::new();
    for (key, value) in entries {
        m.insert(key.to_string(), value);
    }
    m
}

fn minimal_invite_channel() -> Mapping {
    mapping(vec![
        ("id", text("1205")),
        ("name", text("name")),
        ("type", Value::Integer(3)),
    ])
}

fn expected_minimal_invite_channel() -> InviteChannel {
    InviteChannel {
        id: ChannelId(1205),
        name: "name".to_string(),
        kind: ChannelType::Voice,
    }
}

fn minimal_invite_guild() -> Mapping {
    mapping(vec![
        ("id", text("1205")),
        ("name", text("name")),
    ])
}

fn expected_minimal_invite_guild() -> InviteGuild {
    InviteGuild {
        id: GuildId(1205),
        icon: None,
        name: "name".to_string(),
        splash_hash: None,
    }
}

fn minimal_invite() -> Mapping {
    mapping(vec![
        ("code", text("code")),
        ("channel", Value::Mapping(minimal_invite_channel())),
        ("guild", Value::Mapping(minimal_invite_guild())),
    ])
}

fn expected_minimal_invite() -> Invite {
    Invite {
        code: "code".to_string(),
        channel: expected_minimal_invite_channel(),
        guild: expected_minimal_invite_guild(),
    }
}

fn minimal_rich_invite() -> Mapping {
    mapping(vec![
        ("channel", Value::Mapping(minimal_invite_channel())),
        ("code", text("code")),
        ("created_at", text("created_at")),
        ("guild", Value::Mapping(minimal_invite_guild())),
        ("inviter", Value::Mapping(minimal_user())),
        ("max_age", Value::Integer(17)),
        ("max_uses", Value::Integer(18)),
        ("temporary", Value::Bool(true)),
        ("uses", Value::Integer(14)),
    ])
}

fn expected_minimal_rich_invite() -> RichInvite {
    RichInvite {
        channel: expected_minimal_invite_channel(),
        code: "code".to_string(),
        created_at: "created_at".to_string(),
        guild: expected_minimal_invite_guild(),
        inviter: expected_minimal_user(),
        max_age: 17,
        max_uses: 18,
        temporary: true,
        uses: 14,
    }
}

fn minimal_user() -> Mapping {
    mapping(vec![
        ("id", text("1205")),
        ("discriminator", text("discriminator")),
        ("username", text("username")),
    ])
}

fn expected_minimal_user() -> User {
    User {
        id: UserId(1205),
        avatar: None,
        bot: false,
        discriminator: "discriminator".to_string(),
        name: "username".to_string(),
    }
}

fn full_invite_guild() -> Mapping {
    mapping(vec![
        ("id", text("1205")),
        ("icon", text("icon")),
        ("name", text("name")),
        ("splash_hash", text("splash_hash")),
    ])
}

fn expected_full_invite_guild() -> InviteGuild {
    InviteGuild {
        id: GuildId(1205),
        icon: Some("icon".to_string()),
        name: "name".to_string(),
        splash_hash: Some("splash_hash".to_string()),
    }
}

#[test]
fn invite_channel_minimal_decodes() {
    assert_eq!(
        InviteChannel::decode(Value::Mapping(minimal_invite_channel())),
        Ok(expected_minimal_invite_channel())
    );
}

#[test]
fn invite_channel_ignores_unknown_fields() {
    let mut source = minimal_invite_channel();
    source.insert("not_a_known_field".to_string(), Value::Integer(1));
    assert_eq!(
        InviteChannel::decode(Value::Mapping(source)),
        Ok(expected_minimal_invite_channel())
    );
}

#[test]
fn invite_channel_missing_required_fields() {
    for key in ["id", "name", "type"] {
        let mut source = minimal_invite_channel();
        assert!(source.remove(key).is_some());
        assert_eq!(InviteChannel::decode(Value::Mapping(source)), Err(Error::MissingField(key)));
    }
}

#[test]
fn invite_channel_from_no_mapping() {
    assert_eq!(InviteChannel::decode(Value::Null), Err(Error::TypeMismatch(Shape::Mapping, None)));
}

#[test]
fn invite_guild_minimal_decodes() {
    assert_eq!(
        InviteGuild::decode(Value::Mapping(minimal_invite_guild())),
        Ok(expected_minimal_invite_guild())
    );
}

#[test]
fn invite_guild_with_every_field_decodes() {
    assert_eq!(
        InviteGuild::decode(Value::Mapping(full_invite_guild())),
        Ok(expected_full_invite_guild())
    );
}

#[test]
fn invite_guild_ignores_unknown_fields() {
    let mut source = minimal_invite_guild();
    source.insert("not_a_known_field".to_string(), Value::Integer(1));
    assert_eq!(InviteGuild::decode(Value::Mapping(source)), Ok(expected_minimal_invite_guild()));
}

#[test]
fn invite_guild_missing_required_fields() {
    for key in ["id", "name"] {
        let mut source = minimal_invite_guild();
        assert!(source.remove(key).is_some());
        assert_eq!(InviteGuild::decode(Value::Mapping(source)), Err(Error::MissingField(key)));
    }
}

#[test]
fn invite_guild_optional_fields_of_wrong_shape() {
    let cases = [
        ("icon", Shape::Text),
        ("splash_hash", Shape::Text),
    ];
    for (key, shape) in cases {
        let mut source = minimal_invite_guild();
        source.insert(key.to_string(), Value::Null);
        assert_eq!(
            InviteGuild::decode(Value::Mapping(source)),
            Err(Error::TypeMismatch(shape, Some(key)))
        );
    }
}

#[test]
fn invite_guild_from_no_mapping() {
    assert_eq!(InviteGuild::decode(Value::Null), Err(Error::TypeMismatch(Shape::Mapping, None)));
}

#[test]
fn invite_minimal_decodes() {
    assert_eq!(Invite::decode(Value::Mapping(minimal_invite())), Ok(expected_minimal_invite()));
}

#[test]
fn invite_ignores_unknown_fields() {
    let mut source = minimal_invite();
    source.insert("not_a_known_field".to_string(), Value::Integer(1));
    assert_eq!(Invite::decode(Value::Mapping(source)), Ok(expected_minimal_invite()));
}

#[test]
fn invite_missing_required_fields() {
    for key in ["code", "channel", "guild"] {
        let mut source = minimal_invite();
        assert!(source.remove(key).is_some());
        assert_eq!(Invite::decode(Value::Mapping(source)), Err(Error::MissingField(key)));
    }
}

#[test]
fn invite_from_no_mapping() {
    assert_eq!(Invite::decode(Value::Null), Err(Error::TypeMismatch(Shape::Mapping, None)));
}

#[test]
fn rich_invite_minimal_decodes() {
    assert_eq!(
        RichInvite::decode(Value::Mapping(minimal_rich_invite())),
        Ok(expected_minimal_rich_invite())
    );
}

#[test]
fn rich_invite_ignores_unknown_fields() {
    let mut source = minimal_rich_invite();
    source.insert("not_a_known_field".to_string(), Value::Integer(1));
    assert_eq!(RichInvite::decode(Value::Mapping(source)), Ok(expected_minimal_rich_invite()));
}

#[test]
fn rich_invite_missing_required_fields() {
    let keys = [
        "channel",
        "code",
        "created_at",
        "guild",
        "inviter",
        "max_age",
        "max_uses",
        "temporary",
        "uses",
    ];
    for key in keys {
        let mut source = minimal_rich_invite();
        assert!(source.remove(key).is_some());
        assert_eq!(RichInvite::decode(Value::Mapping(source)), Err(Error::MissingField(key)));
    }
}

#[test]
fn rich_invite_from_no_mapping() {
    assert_eq!(RichInvite::decode(Value::Null), Err(Error::TypeMismatch(Shape::Mapping, None)));
}
