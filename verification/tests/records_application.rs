use discord_decode::decode::Decode;
use discord_decode::error::Error;
use discord_decode::error::Shape;
use discord_decode::ident::UserId;
use discord_decode::records::application::ApplicationInfo;
use discord_decode::records::application::BotApplication;
use discord_decode::records::application::CurrentApplicationInfo;
use discord_decode::records::user::User;
use discord_decode::scalar::Discriminator;
use discord_decode::value::Mapping;
use discord_decode::value::Value;

fn text(s: &str) -> Value {
    Value::Text(s.to_string())
}

fn mapping(entries: Vec<(&str, Value)>) -> Mapping {
    let mut m = Mapping::new();
    for (key, value) in entries {
        m.insert(key.to_string(), value);
    }
    m
}

fn minimal_bot_application() -> Mapping {
    mapping(vec![
        ("id", text("1205")),
        ("discriminator", text("0001")),
        ("username", text("username")),
        ("token", text("token")),
    ])
}

fn expected_minimal_bot_application() -> BotApplication {
    BotApplication {
        id: UserId(1205),
        avatar: None,
        bot: false,
        discriminator: Discriminator(1),
        name: "username".to_string(),
        token: "token".to_string(),
    }
}

fn minimal_application_info() -> Mapping {
    mapping(vec![
        ("bot_public", Value::Bool(true)),
        ("bot_require_code_grant", Value::Bool(true)),
        ("description", text("description")),
        ("id", text("1205")),
        ("name", text("name")),
        ("redirect_uris", Value::Sequence(vec![text("redirect_uris")])),
        ("rpc_origins", Value::Sequence(vec![text("rpc_origins")])),
        ("secret", text("secret")),
    ])
}

fn expected_minimal_application_info() -> ApplicationInfo {
    ApplicationInfo {
        bot: None,
        bot_public: true,
        bot_require_code_grant: true,
        description: "description".to_string(),
        flags: None,
        icon: None,
        id: UserId(1205),
        name: "name".to_string(),
        redirect_uris: vec!["redirect_uris".to_string()],
        rpc_origins: vec!["rpc_origins".to_string()],
        secret: "secret".to_string(),
    }
}

fn minimal_current_application_info() -> Mapping {
    mapping(vec![
        ("description", text("description")),
        ("id", text("1205")),
        ("name", text("name")),
        ("owner", Value::Mapping(minimal_user())),
    ])
}

fn expected_minimal_current_application_info() -> CurrentApplicationInfo {
    CurrentApplicationInfo {
        description: "description".to_string(),
        icon: None,
        id: UserId(1205),
        name: "name".to_string(),
        owner: expected_minimal_user(),
        rpc_origins: Vec::new(),
    }
}

fn minimal_user() -> Mapping {
    mapping(vec![
        ("id", text("1205")),
        ("discriminator", text("discriminator")),
        ("username", text("username")),
    ])
}

fn expected_minimal_user() -> User {
    User {
        id: UserId(1205),
        avatar: None,
        bot: false,
        discriminator: "discriminator".to_string(),
        name: "username".to_string(),
    }
}

fn full_bot_application() -> Mapping {
    mapping(vec![
        ("id", text("1205")),
        ("avatar", text("avatar")),
        ("bot", Value::Bool(true)),
        ("discriminator", text("0001")),
        ("username", text("username")),
        ("token", text("token")),
    ])
}

fn expected_full_bot_application() -> BotApplication {
    BotApplication {
        id: UserId(1205),
        avatar: Some("avatar".to_string()),
        bot: true,
        discriminator: Discriminator(1),
        name: "username".to_string(),
        token: "token".to_string(),
    }
}

fn full_application_info() -> Mapping {
    mapping(vec![
        ("bot", Value::Mapping(minimal_bot_application())),
        ("bot_public", Value::Bool(true)),
        ("bot_require_code_grant", Value::Bool(true)),
        ("description", text("description")),
        ("flags", Value::Integer(15)),
        ("icon", text("icon")),
        ("id", text("1205")),
        ("name", text("name")),
        ("redirect_uris", Value::Sequence(vec![text("redirect_uris")])),
        ("rpc_origins", Value::Sequence(vec![text("rpc_origins")])),
        ("secret", text("secret")),
    ])
}

fn expected_full_application_info() -> ApplicationInfo {
    ApplicationInfo {
        bot: Some(expected_minimal_bot_application()),
        bot_public: true,
        bot_require_code_grant: true,
        description: "description".to_string(),
        flags: Some(15),
        icon: Some("icon".to_string()),
        id: UserId(1205),
        name: "name".to_string(),
        redirect_uris: vec!["redirect_uris".to_string()],
        rpc_origins: vec!["rpc_origins".to_string()],
        secret: "secret".to_string(),
    }
}

fn full_current_application_info() -> Mapping {
    mapping(vec![
        ("description", text("description")),
        ("icon", text("icon")),
        ("id", text("1205")),
        ("name", text("name")),
        ("owner", Value::Mapping(minimal_user())),
        ("rpc_origins", Value::Sequence(vec![text("rpc_origins")])),
    ])
}

fn expected_full_current_application_info() -> CurrentApplicationInfo {
    CurrentApplicationInfo {
        description: "description".to_string(),
        icon: Some("icon".to_string()),
        id: UserId(1205),
        name: "name".to_string(),
        owner: expected_minimal_user(),
        rpc_origins: vec!["rpc_origins".to_string()],
    }
}

#[test]
fn bot_application_minimal_decodes() {
    assert_eq!(
        BotApplication::decode(Value::Mapping(minimal_bot_application())),
        Ok(expected_minimal_bot_application())
    );
}

#[test]
fn bot_application_with_every_field_decodes() {
    assert_eq!(
        BotApplication::decode(Value::Mapping(full_bot_application())),
        Ok(expected_full_bot_application())
    );
}

#[test]
fn bot_application_ignores_unknown_fields() {
    let mut source = minimal_bot_application();
    source.insert("not_a_known_field".to_string(), Value::Integer(1));
    assert_eq!(
        BotApplication::decode(Value::Mapping(source)),
        Ok(expected_minimal_bot_application())
    );
}

#[test]
fn bot_application_missing_required_fields() {
    for key in ["id", "discriminator", "username", "token"] {
        let mut source = minimal_bot_application();
        assert!(source.remove(key).is_some());
        assert_eq!(BotApplication::decode(Value::Mapping(source)), Err(Error::MissingField(key)));
    }
}

#[test]
fn bot_application_optional_fields_of_wrong_shape() {
    let cases = [
        ("avatar", Shape::Text),
        ("bot", Shape::Boolean),
    ];
    for (key, shape) in cases {
        let mut source = minimal_bot_application();
        source.insert(key.to_string(), Value::Null);
        assert_eq!(
            BotApplication::decode(Value::Mapping(source)),
            Err(Error::TypeMismatch(shape, Some(key)))
        );
    }
}

#[test]
fn bot_application_from_no_mapping() {
    assert_eq!(BotApplication::decode(Value::Null), Err(Error::TypeMismatch(Shape::Mapping, None)));
}

#[test]
fn application_info_minimal_decodes() {
    assert_eq!(
        ApplicationInfo::decode(Value::Mapping(minimal_application_info())),
        Ok(expected_minimal_application_info())
    );
}

#[test]
fn application_info_with_every_field_decodes() {
    assert_eq!(
        ApplicationInfo::decode(Value::Mapping(full_application_info())),
        Ok(expected_full_application_info())
    );
}

#[test]
fn application_info_ignores_unknown_fields() {
    let mut source = minimal_application_info();
    source.insert("not_a_known_field".to_string(), Value::Integer(1));
    assert_eq!(
        ApplicationInfo::decode(Value::Mapping(source)),
        Ok(expected_minimal_application_info())
    );
}

#[test]
fn application_info_missing_required_fields() {
    let keys = [
        "bot_public",
        "bot_require_code_grant",
        "description",
        "id",
        "name",
        "redirect_uris",
        "rpc_origins",
        "secret",
    ];
    for key in keys {
        let mut source = minimal_application_info();
        assert!(source.remove(key).is_some());
        assert_eq!(ApplicationInfo::decode(Value::Mapping(source)), Err(Error::MissingField(key)));
    }
}

#[test]
fn application_info_optional_fields_of_wrong_shape() {
    let cases = [
        ("bot", Shape::Mapping),
        ("flags", Shape::Unsigned64),
        ("icon", Shape::Text),
    ];
    for (key, shape) in cases {
        let mut source = minimal_application_info();
        source.insert(key.to_string(), Value::Null);
        assert_eq!(
            ApplicationInfo::decode(Value::Mapping(source)),
            Err(Error::TypeMismatch(shape, Some(key)))
        );
    }
}

#[test]
fn application_info_from_no_mapping() {
    assert_eq!(
        ApplicationInfo::decode(Value::Null),
        Err(Error::TypeMismatch(Shape::Mapping, None))
    );
}

#[test]
fn current_application_info_minimal_decodes() {
    assert_eq!(
        CurrentApplicationInfo::decode(Value::Mapping(minimal_current_application_info())),
        Ok(expected_minimal_current_application_info())
    );
}

#[test]
fn current_application_info_with_every_field_decodes() {
    assert_eq!(
        CurrentApplicationInfo::decode(Value::Mapping(full_current_application_info())),
        Ok(expected_full_current_application_info())
    );
}

#[test]
fn current_application_info_ignores_unknown_fields() {
    let mut source = minimal_current_application_info();
    source.insert("not_a_known_field".to_string(), Value::Integer(1));
    assert_eq!(
        CurrentApplicationInfo::decode(Value::Mapping(source)),
        Ok(expected_minimal_current_application_info())
    );
}

#[test]
fn current_application_info_missing_required_fields() {
    for key in ["description", "id", "name", "owner"] {
        let mut source = minimal_current_application_info();
        assert!(source.remove(key).is_some());
        assert_eq!(
            CurrentApplicationInfo::decode(Value::Mapping(source)),
            Err(Error::MissingField(key))
        );
    }
}

#[test]
fn current_application_info_optional_fields_of_wrong_shape() {
    let cases = [
        ("icon", Shape::Text),
        ("rpc_origins", Shape::Sequence),
    ];
    for (key, shape) in cases {
        let mut source = minimal_current_application_info();
        source.insert(key.to_string(), Value::Null);
        assert_eq!(
            CurrentApplicationInfo::decode(Value::Mapping(source)),
            Err(Error::TypeMismatch(shape, Some(key)))
        );
    }
}

#[test]
fn current_application_info_from_no_mapping() {
    assert_eq!(
        CurrentApplicationInfo::decode(Value::Null),
        Err(Error::TypeMismatch(Shape::Mapping, None))
    );
}
