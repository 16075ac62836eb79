use discord_decode::decode::Decode;
use discord_decode::error::Error;
use discord_decode::error::Shape;
use discord_decode::ident::ChannelId;
use discord_decode::ident::MessageId;
use discord_decode::ident::UserId;
use discord_decode::keyed::IdMap;
use discord_decode::keyed::Keyed;
use discord_decode::records::voice::Call;
use discord_decode::records::voice::VoiceRegion;
use discord_decode::records::voice::VoiceState;
use discord_decode::value::Mapping;
use discord_decode::value::Value;

fn text(s: &str) -> Value {
    Value::Text(s.to_string())
}

fn mapping(entries: Vec<(&str, Value)>) -> Mapping {
    let mut m = Mapping::new();
    for (key, value) in entries {
        m.insert(key.to_string(), value);
    }
    m
}

fn one<T: Keyed>(record: T) -> IdMap<T> {
    let mut m = IdMap::new();
    let key = record.key();
    m.insert(key, record);
    m
}

fn minimal_voice_state() -> Mapping {
    mapping(vec![
        ("deaf", Value::Bool(true)),
        ("mute", Value::Bool(true)),
        ("self_deaf", Value::Bool(true)),
        ("self_mute", Value::Bool(true)),
        ("session_id", text("session_id")),
        ("suppress", Value::Bool(true)),
        ("user_id", Value::Integer(1747)),
    ])
}

fn expected_minimal_voice_state() -> VoiceState {
    VoiceState {
        channel_id: None,
        deaf: true,
        mute: true,
        self_deaf: true,
        self_mute: true,
        session_id: "session_id".to_string(),
        suppress: true,
        token: None,
        user_id: UserId(1747),
    }
}

fn minimal_voice_region() -> Mapping {
    mapping(vec![
        ("custom", Value::Bool(true)),
        ("deprecated", Value::Bool(true)),
        ("id", text("id")),
        ("name", text("name")),
        ("optimal", Value::Bool(true)),
        ("sample_hostname", text("sample_hostname")),
        ("sample_port", Value::Integer(21)),
        ("vip", Value::Bool(true)),
    ])
}

fn expected_minimal_voice_region() -> VoiceRegion {
    VoiceRegion {
        custom: true,
        deprecated: true,
        id: "id".to_string(),
        name: "name".to_string(),
        optimal: true,
        sample_hostname: "sample_hostname".to_string(),
        sample_port: 21,
        vip: true,
    }
}

fn minimal_call() -> Mapping {
    mapping(vec![
        ("channel_id", text("2029")),
        ("message_id", text("2041")),
        ("region", text("region")),
        ("ringing", Value::Sequence(vec![Value::Integer(1750)])),
        ("unavailable", Value::Bool(true)),
        ("voice_states", Value::Sequence(vec![Value::Mapping(minimal_voice_state())])),
    ])
}

fn expected_minimal_call() -> Call {
    Call {
        channel_id: ChannelId(2029),
        message_id: MessageId(2041),
        region: "region".to_string(),
        ringing: vec![UserId(1750)],
        unavailable: true,
        voice_states: one(expected_minimal_voice_state()),
    }
}

fn full_voice_state() -> Mapping {
    mapping(vec![
        ("channel_id", text("2029")),
        ("deaf", Value::Bool(true)),
        ("mute", Value::Bool(true)),
        ("self_deaf", Value::Bool(true)),
        ("self_mute", Value::Bool(true)),
        ("session_id", text("session_id")),
        ("suppress", Value::Bool(true)),
        ("token", text("token")),
        ("user_id", Value::Integer(1747)),
    ])
}

fn expected_full_voice_state() -> VoiceState {
    VoiceState {
        channel_id: Some(ChannelId(2029)),
        deaf: true,
        mute: true,
        self_deaf: true,
        self_mute: true,
        session_id: "session_id".to_string(),
        suppress: true,
        token: Some("token".to_string()),
        user_id: UserId(1747),
    }
}

#[test]
fn voice_state_minimal_decodes() {
    assert_eq!(
        VoiceState::decode(Value::Mapping(minimal_voice_state())),
        Ok(expected_minimal_voice_state())
    );
}

#[test]
fn voice_state_with_every_field_decodes() {
    assert_eq!(
        VoiceState::decode(Value::Mapping(full_voice_state())),
        Ok(expected_full_voice_state())
    );
}

#[test]
fn voice_state_ignores_unknown_fields() {
    let mut source = minimal_voice_state();
    source.insert("not_a_known_field".to_string(), Value::Integer(1));
    assert_eq!(VoiceState::decode(Value::Mapping(source)), Ok(expected_minimal_voice_state()));
}

#[test]
fn voice_state_missing_required_fields() {
    for key in ["deaf", "mute", "self_deaf", "self_mute", "session_id", "suppress", "user_id"] {
        let mut source = minimal_voice_state();
        assert!(source.remove(key).is_some());
        assert_eq!(VoiceState::decode(Value::Mapping(source)), Err(Error::MissingField(key)));
    }
}

#[test]
fn voice_state_optional_fields_of_wrong_shape() {
    let cases = [
        ("channel_id", Shape::Identifier),
        ("token", Shape::Text),
    ];
    for (key, shape) in cases {
        let mut source = minimal_voice_state();
        source.insert(key.to_string(), Value::Null);
        assert_eq!(
            VoiceState::decode(Value::Mapping(source)),
            Err(Error::TypeMismatch(shape, Some(key)))
        );
    }
}

#[test]
fn voice_state_from_no_mapping() {
    assert_eq!(VoiceState::decode(Value::Null), Err(Error::TypeMismatch(Shape::Mapping, None)));
}

#[test]
fn voice_region_minimal_decodes() {
    assert_eq!(
        VoiceRegion::decode(Value::Mapping(minimal_voice_region())),
        Ok(expected_minimal_voice_region())
    );
}

#[test]
fn voice_region_ignores_unknown_fields() {
    let mut source = minimal_voice_region();
    source.insert("not_a_known_field".to_string(), Value::Integer(1));
    assert_eq!(VoiceRegion::decode(Value::Mapping(source)), Ok(expected_minimal_voice_region()));
}

#[test]
fn voice_region_missing_required_fields() {
    let keys = [
        "custom",
        "deprecated",
        "id",
        "name",
        "optimal",
        "sample_hostname",
        "sample_port",
        "vip",
    ];
    for key in keys {
        let mut source = minimal_voice_region();
        assert!(source.remove(key).is_some());
        assert_eq!(VoiceRegion::decode(Value::Mapping(source)), Err(Error::MissingField(key)));
    }
}

#[test]
fn voice_region_from_no_mapping() {
    assert_eq!(VoiceRegion::decode(Value::Null), Err(Error::TypeMismatch(Shape::Mapping, None)));
}

#[test]
fn call_minimal_decodes() {
    assert_eq!(Call::decode(Value::Mapping(minimal_call())), Ok(expected_minimal_call()));
}

#[test]
fn call_ignores_unknown_fields() {
    let mut source = minimal_call();
    source.insert("not_a_known_field".to_string(), Value::Integer(1));
    assert_eq!(Call::decode(Value::Mapping(source)), Ok(expected_minimal_call()));
}

#[test]
fn call_missing_required_fields() {
    for key in ["channel_id", "message_id", "region", "ringing", "unavailable", "voice_states"] {
        let mut source = minimal_call();
        assert!(source.remove(key).is_some());
        assert_eq!(Call::decode(Value::Mapping(source)), Err(Error::MissingField(key)));
    }
}

#[test]
fn call_from_no_mapping() {
    assert_eq!(Call::decode(Value::Null), Err(Error::TypeMismatch(Shape::Mapping, None)));
}
