use discord_decode::decode::Decode;
use discord_decode::error::Error;
use discord_decode::error::Shape;
use discord_decode::ident::ChannelId;
use discord_decode::ident::MessageId;
use discord_decode::ident::RoleId;
use discord_decode::ident::UserId;
use discord_decode::ident::WebhookId;
use discord_decode::kinds::MessageType;
use discord_decode::records::embed::Embed;
use discord_decode::records::embed::EmbedAuthor;
use discord_decode::records::embed::EmbedField;
use discord_decode::records::embed::EmbedImage;
use discord_decode::records::embed::EmbedProvider;
use discord_decode::records::embed::EmbedThumbnail;
use discord_decode::records::embed::EmbedVideo;
use discord_decode::records::message::Attachment;
use discord_decode::records::message::Message;
use discord_decode::records::message::MessageReaction;
use discord_decode::records::message::Reaction;
use discord_decode::records::message::SearchResult;
use discord_decode::records::reaction::ReactionType;
use discord_decode::records::user::User;
use discord_decode::scalar::Colour;
use discord_decode::value::Mapping;
use discord_decode::value::Value;

fn text(s: &str) -> Value {
    Value::Text(s.to_string())
}

fn mapping(entries: Vec<(&str, Value)>) -> Mapping {
    let mut m = Mapping::new();
    for (key, value) in entries {
        m.insert(key.to_string(), value);
    }
    m
}

fn sample_reaction_emoji() -> Value {
    Value::Mapping(mapping(vec![("name", text("heart"))]))
}

fn expected_reaction_emoji() -> ReactionType {
    ReactionType::Unicode("heart".to_string())
}

fn minimal_attachment() -> Mapping {
    mapping(vec![
        ("id", text("id")),
        ("filename", text("filename")),
        ("proxy_url", text("proxy_url")),
        ("size", Value::Integer(14)),
        ("url", text("url")),
    ])
}

fn expected_minimal_attachment() -> Attachment {
    Attachment {
        id: "id".to_string(),
        filename: "filename".to_string(),
        height: None,
        proxy_url: "proxy_url".to_string(),
        size: 14,
        url: "url".to_string(),
        width: None,
    }
}

fn minimal_message_reaction() -> Mapping {
    mapping(vec![
        ("count", Value::Integer(15)),
        ("me", Value::Bool(true)),
        ("emoji", sample_reaction_emoji()),
    ])
}

fn expected_minimal_message_reaction() -> MessageReaction {
    MessageReaction {
        count: 15,
        me: true,
        reaction_type: expected_reaction_emoji(),
    }
}

fn minimal_reaction() -> Mapping {
    mapping(vec![
        ("channel_id", text("2029")),
        ("emoji", sample_reaction_emoji()),
        ("message_id", text("2041")),
        ("user_id", Value::Integer(1747)),
    ])
}

fn expected_minimal_reaction() -> Reaction {
    Reaction {
        channel_id: ChannelId(2029),
        emoji: expected_reaction_emoji(),
        message_id: MessageId(2041),
        user_id: UserId(1747),
    }
}

fn minimal_message() -> Mapping {
    mapping(vec![
        ("id", text("1205")),
        ("attachments", Value::Sequence(vec![Value::Mapping(minimal_attachment())])),
        ("author", Value::Mapping(minimal_user())),
        ("channel_id", text("2029")),
        ("content", text("content")),
        ("embeds", Value::Sequence(vec![Value::Mapping(minimal_embed())])),
        ("type", Value::Integer(6)),
        ("mention_everyone", Value::Bool(true)),
        ("mention_roles", Value::Sequence(vec![Value::Integer(2406)])),
        ("mentions", Value::Sequence(vec![Value::Mapping(minimal_user())])),
        ("pinned", Value::Bool(true)),
        ("timestamp", text("timestamp")),
        ("tts", Value::Bool(true)),
    ])
}

fn expected_minimal_message() -> Message {
    Message {
        id: MessageId(1205),
        attachments: vec![expected_minimal_attachment()],
        author: expected_minimal_user(),
        channel_id: ChannelId(2029),
        content: "content".to_string(),
        edited_timestamp: None,
        embeds: vec![expected_minimal_embed()],
        hit: false,
        kind: MessageType::PinsAdd,
        mention_everyone: true,
        mention_roles: vec![RoleId(2406)],
        mentions: vec![expected_minimal_user()],
        nonce: None,
        pinned: true,
        reactions: Vec::new(),
        timestamp: "timestamp".to_string(),
        tts: true,
        webhook_id: None,
    }
}

fn minimal_search_result() -> Mapping {
    mapping(vec![
        (
            "messages",
            Value::Sequence(vec![Value::Sequence(vec![Value::Mapping(minimal_message())])]),
        ),
        ("total_results", Value::Integer(23)),
    ])
}

fn expected_minimal_search_result() -> SearchResult {
    SearchResult {
        results: vec![vec![expected_minimal_message()]],
        total: 23,
    }
}

fn minimal_user() -> Mapping {
    mapping(vec![
        ("id", text("1205")),
        ("discriminator", text("discriminator")),
        ("username", text("username")),
    ])
}

fn expected_minimal_user() -> User {
    User {
        id: UserId(1205),
        avatar: None,
        bot: false,
        discriminator: "discriminator".to_string(),
        name: "username".to_string(),
    }
}

fn minimal_embed() -> Mapping {
    mapping(vec![
        ("type", text("type")),
    ])
}

fn expected_minimal_embed() -> Embed {
    Embed {
        author: None,
        colour: Colour(0),
        description: None,
        fields: None,
        image: None,
        kind: "type".to_string(),
        provider: None,
        thumbnail: None,
        timestamp: None,
        title: None,
        url: None,
        video: None,
    }
}

fn minimal_embed_field() -> Mapping {
    mapping(vec![
        ("inline", Value::Bool(true)),
        ("name", text("name")),
        ("value", text("value")),
    ])
}

fn expected_minimal_embed_field() -> EmbedField {
    EmbedField {
        inline: true,
        name: "name".to_string(),
        value: "value".to_string(),
    }
}

fn minimal_embed_author() -> Mapping {
    mapping(vec![
        ("name", text("name")),
    ])
}

fn expected_minimal_embed_author() -> EmbedAuthor {
    EmbedAuthor {
        icon_url: None,
        name: "name".to_string(),
        proxy_icon_url: None,
        url: None,
    }
}

fn minimal_embed_thumbnail() -> Mapping {
    mapping(vec![
        ("height", Value::Integer(16)),
        ("proxy_url", text("proxy_url")),
        ("url", text("url")),
        ("width", Value::Integer(15)),
    ])
}

fn expected_minimal_embed_thumbnail() -> EmbedThumbnail {
    EmbedThumbnail {
        height: 16,
        proxy_url: "proxy_url".to_string(),
        url: "url".to_string(),
        width: 15,
    }
}

fn minimal_embed_image() -> Mapping {
    mapping(vec![
        ("height", Value::Integer(16)),
        ("proxy_url", text("proxy_url")),
        ("url", text("url")),
        ("width", Value::Integer(15)),
    ])
}

fn expected_minimal_embed_image() -> EmbedImage {
    EmbedImage {
        height: 16,
        proxy_url: "proxy_url".to_string(),
        url: "url".to_string(),
        width: 15,
    }
}

fn minimal_embed_provider() -> Mapping {
    mapping(vec![
        ("name", text("name")),
    ])
}

fn expected_minimal_embed_provider() -> EmbedProvider {
    EmbedProvider {
        name: "name".to_string(),
        url: None,
    }
}

fn minimal_embed_video() -> Mapping {
    mapping(vec![
        ("height", Value::Integer(16)),
        ("url", text("url")),
        ("width", Value::Integer(15)),
    ])
}

fn expected_minimal_embed_video() -> EmbedVideo {
    EmbedVideo {
        height: 16,
        url: "url".to_string(),
        width: 15,
    }
}

fn full_attachment() -> Mapping {
    mapping(vec![
        ("id", text("id")),
        ("filename", text("filename")),
        ("height", Value::Integer(16)),
        ("proxy_url", text("proxy_url")),
        ("size", Value::Integer(14)),
        ("url", text("url")),
        ("width", Value::Integer(15)),
    ])
}

fn expected_full_attachment() -> Attachment {
    Attachment {
        id: "id".to_string(),
        filename: "filename".to_string(),
        height: Some(16),
        proxy_url: "proxy_url".to_string(),
        size: 14,
        url: "url".to_string(),
        width: Some(15),
    }
}

fn full_message() -> Mapping {
    mapping(vec![
        ("id", text("1205")),
        ("attachments", Value::Sequence(vec![Value::Mapping(minimal_attachment())])),
        ("author", Value::Mapping(minimal_user())),
        ("channel_id", text("2029")),
        ("content", text("content")),
        ("edited_timestamp", text("edited_timestamp")),
        ("embeds", Value::Sequence(vec![Value::Mapping(minimal_embed())])),
        ("hit", Value::Bool(true)),
        ("type", Value::Integer(6)),
        ("mention_everyone", Value::Bool(true)),
        ("mention_roles", Value::Sequence(vec![Value::Integer(2406)])),
        ("mentions", Value::Sequence(vec![Value::Mapping(minimal_user())])),
        ("nonce", text("nonce")),
        ("pinned", Value::Bool(true)),
        ("reactions", Value::Sequence(vec![Value::Mapping(minimal_message_reaction())])),
        ("timestamp", text("timestamp")),
        ("tts", Value::Bool(true)),
        ("webhook_id", text("2051")),
    ])
}

fn expected_full_message() -> Message {
    Message {
        id: MessageId(1205),
        attachments: vec![expected_minimal_attachment()],
        author: expected_minimal_user(),
        channel_id: ChannelId(2029),
        content: "content".to_string(),
        edited_timestamp: Some("edited_timestamp".to_string()),
        embeds: vec![expected_minimal_embed()],
        hit: true,
        kind: MessageType::PinsAdd,
        mention_everyone: true,
        mention_roles: vec![RoleId(2406)],
        mentions: vec![expected_minimal_user()],
        nonce: Some("nonce".to_string()),
        pinned: true,
        reactions: vec![expected_minimal_message_reaction()],
        timestamp: "timestamp".to_string(),
        tts: true,
        webhook_id: Some(WebhookId(2051)),
    }
}

#[test]
fn attachment_minimal_decodes() {
    assert_eq!(
        Attachment::decode(Value::Mapping(minimal_attachment())),
        Ok(expected_minimal_attachment())
    );
}

#[test]
fn attachment_with_every_field_decodes() {
    assert_eq!(
        Attachment::decode(Value::Mapping(full_attachment())),
        Ok(expected_full_attachment())
    );
}

#[test]
fn attachment_ignores_unknown_fields() {
    let mut source = minimal_attachment();
    source.insert("not_a_known_field".to_string(), Value::Integer(1));
    assert_eq!(Attachment::decode(Value::Mapping(source)), Ok(expected_minimal_attachment()));
}

#[test]
fn attachment_missing_required_fields() {
    for key in ["id", "filename", "proxy_url", "size", "url"] {
        let mut source = minimal_attachment();
        assert!(source.remove(key).is_some());
        assert_eq!(Attachment::decode(Value::Mapping(source)), Err(Error::MissingField(key)));
    }
}

#[test]
fn attachment_optional_fields_of_wrong_shape() {
    let cases = [
        ("height", Shape::Unsigned64),
        ("width", Shape::Unsigned64),
    ];
    for (key, shape) in cases {
        let mut source = minimal_attachment();
        source.insert(key.to_string(), Value::Null);
        assert_eq!(
            Attachment::decode(Value::Mapping(source)),
            Err(Error::TypeMismatch(shape, Some(key)))
        );
    }
}

#[test]
fn attachment_from_no_mapping() {
    assert_eq!(Attachment::decode(Value::Null), Err(Error::TypeMismatch(Shape::Mapping, None)));
}

#[test]
fn message_reaction_minimal_decodes() {
    assert_eq!(
        MessageReaction::decode(Value::Mapping(minimal_message_reaction())),
        Ok(expected_minimal_message_reaction())
    );
}

#[test]
fn message_reaction_ignores_unknown_fields() {
    let mut source = minimal_message_reaction();
    source.insert("not_a_known_field".to_string(), Value::Integer(1));
    assert_eq!(
        MessageReaction::decode(Value::Mapping(source)),
        Ok(expected_minimal_message_reaction())
    );
}

#[test]
fn message_reaction_missing_required_fields() {
    for key in ["count", "me", "emoji"] {
        let mut source = minimal_message_reaction();
        assert!(source.remove(key).is_some());
        assert_eq!(MessageReaction::decode(Value::Mapping(source)), Err(Error::MissingField(key)));
    }
}

#[test]
fn message_reaction_from_no_mapping() {
    assert_eq!(
        MessageReaction::decode(Value::Null),
        Err(Error::TypeMismatch(Shape::Mapping, None))
    );
}

#[test]
fn reaction_minimal_decodes() {
    assert_eq!(
        Reaction::decode(Value::Mapping(minimal_reaction())),
        Ok(expected_minimal_reaction())
    );
}

#[test]
fn reaction_ignores_unknown_fields() {
    let mut source = minimal_reaction();
    source.insert("not_a_known_field".to_string(), Value::Integer(1));
    assert_eq!(Reaction::decode(Value::Mapping(source)), Ok(expected_minimal_reaction()));
}

#[test]
fn reaction_missing_required_fields() {
    for key in ["channel_id", "emoji", "message_id", "user_id"] {
        let mut source = minimal_reaction();
        assert!(source.remove(key).is_some());
        assert_eq!(Reaction::decode(Value::Mapping(source)), Err(Error::MissingField(key)));
    }
}

#[test]
fn reaction_from_no_mapping() {
    assert_eq!(Reaction::decode(Value::Null), Err(Error::TypeMismatch(Shape::Mapping, None)));
}

#[test]
fn message_minimal_decodes() {
    assert_eq!(Message::decode(Value::Mapping(minimal_message())), Ok(expected_minimal_message()));
}

#[test]
fn message_with_every_field_decodes() {
    assert_eq!(Message::decode(Value::Mapping(full_message())), Ok(expected_full_message()));
}

#[test]
fn message_ignores_unknown_fields() {
    let mut source = minimal_message();
    source.insert("not_a_known_field".to_string(), Value::Integer(1));
    assert_eq!(Message::decode(Value::Mapping(source)), Ok(expected_minimal_message()));
}

#[test]
fn message_missing_required_fields() {
    let keys = [
        "id",
        "attachments",
        "author",
        "channel_id",
        "content",
        "embeds",
        "type",
        "mention_everyone",
        "mention_roles",
        "mentions",
        "pinned",
        "timestamp",
        "tts",
    ];
    for key in keys {
        let mut source = minimal_message();
        assert!(source.remove(key).is_some());
        assert_eq!(Message::decode(Value::Mapping(source)), Err(Error::MissingField(key)));
    }
}

#[test]
fn message_optional_fields_of_wrong_shape() {
    let cases = [
        ("edited_timestamp", Shape::Text),
        ("hit", Shape::Boolean),
        ("nonce", Shape::Text),
        ("reactions", Shape::Sequence),
        ("webhook_id", Shape::Identifier),
    ];
    for (key, shape) in cases {
        let mut source = minimal_message();
        source.insert(key.to_string(), Value::Null);
        assert_eq!(
            Message::decode(Value::Mapping(source)),
            Err(Error::TypeMismatch(shape, Some(key)))
        );
    }
}

#[test]
fn message_from_no_mapping() {
    assert_eq!(Message::decode(Value::Null), Err(Error::TypeMismatch(Shape::Mapping, None)));
}

#[test]
fn search_result_minimal_decodes() {
    assert_eq!(
        SearchResult::decode(Value::Mapping(minimal_search_result())),
        Ok(expected_minimal_search_result())
    );
}

#[test]
fn search_result_ignores_unknown_fields() {
    let mut source = minimal_search_result();
    source.insert("not_a_known_field".to_string(), Value::Integer(1));
    assert_eq!(SearchResult::decode(Value::Mapping(source)), Ok(expected_minimal_search_result()));
}

#[test]
fn search_result_missing_required_fields() {
    for key in ["messages", "total_results"] {
        let mut source = minimal_search_result();
        assert!(source.remove(key).is_some());
        assert_eq!(SearchResult::decode(Value::Mapping(source)), Err(Error::MissingField(key)));
    }
}

#[test]
fn search_result_from_no_mapping() {
    assert_eq!(SearchResult::decode(Value::Null), Err(Error::TypeMismatch(Shape::Mapping, None)));
}
