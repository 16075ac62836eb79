use discord_decode::codec::decode_by_name;
use discord_decode::codec::decode_by_ordinal;
use discord_decode::codec::named_members;
use discord_decode::codec::peek_ordinal;
use discord_decode::codec::Named;
use discord_decode::codec::NamedEnum;
use discord_decode::codec::Numbered;
use discord_decode::codec::OrdinalEnum;
use discord_decode::decode::Decode;
use discord_decode::error::Error;
use discord_decode::error::Raw;
use discord_decode::error::Shape;
use discord_decode::kinds::ChannelType;
use discord_decode::kinds::ConnectionType;
use discord_decode::kinds::DefaultAvatar;
use discord_decode::kinds::Feature;
use discord_decode::kinds::GameType;
use discord_decode::kinds::IncidentStatus;
use discord_decode::kinds::MessageType;
use discord_decode::kinds::NotificationLevel;
use discord_decode::kinds::OnlineStatus;
use discord_decode::kinds::OverwriteTarget;
use discord_decode::kinds::Region;
use discord_decode::kinds::RelationshipType;
use discord_decode::kinds::VerificationLevel;
use discord_decode::value::Mapping;
use discord_decode::value::Value;
use std::fmt::Debug;

fn text(s: &str) -> Value {
    Value::Text(s.to_string())
}

fn check_names<E: NamedEnum + PartialEq + Debug + Copy>(kind: &str, members: &[(E, &str)]) {
    assert_eq!(E::kind(), kind);
    for (member, name) in members {
        assert_eq!(member.name_of(), *name);
        assert_eq!(E::variant_from_name(name), Some(*member));
        assert_eq!(E::variant_from_name(member.name_of()), Some(*member));
        assert_eq!(decode_by_name::<E>(text(name)), Ok(*member));
    }
    for (i, (_, a)) in members.iter().enumerate() {
        for (_, b) in &members[i + 1..] {
            assert_ne!(a, b);
        }
    }
    for unknown in ["", "bogus", " ", "GROUP", "Text", "text ", "0"] {
        if members.iter().any(|(_, name)| *name == unknown) {
            continue;
        }
        assert_eq!(E::variant_from_name(unknown), None);
        assert_eq!(
            decode_by_name::<E>(text(unknown)),
            Err(Error::InvalidEnumValue(E::kind(), Raw::Name(unknown.to_string())))
        );
    }
    assert_eq!(decode_by_name::<E>(Value::Integer(0)), Err(Error::TypeMismatch(Shape::Text, None)));
    assert_eq!(decode_by_name::<E>(Value::Null), Err(Error::TypeMismatch(Shape::Text, None)));
}

fn check_ordinals<E: OrdinalEnum + PartialEq + Debug + Copy>(kind: &str, members: &[E]) {
    assert_eq!(E::kind(), kind);
    for (i, member) in members.iter().enumerate() {
        assert_eq!(member.ordinal_of(), i as u64);
        assert_eq!(E::variant_from_ordinal(i as u64), Some(*member));
        assert_eq!(E::variant_from_ordinal(member.ordinal_of()), Some(*member));
        assert_eq!(decode_by_ordinal::<E>(Value::Integer(i as i128)), Ok(*member));
    }
    let n = members.len() as u64;
    for unknown in [n, n + 1, 255, 256, u64::MAX] {
        assert_eq!(E::variant_from_ordinal(unknown), None);
        assert_eq!(
            decode_by_ordinal::<E>(Value::Integer(unknown as i128)),
            Err(Error::InvalidEnumValue(E::kind(), Raw::Ordinal(unknown)))
        );
    }
    assert_eq!(
        decode_by_ordinal::<E>(Value::Integer(-1)),
        Err(Error::TypeMismatch(Shape::Unsigned64, None))
    );
    assert_eq!(
        decode_by_ordinal::<E>(Value::Integer(u64::MAX as i128 + 1)),
        Err(Error::TypeMismatch(Shape::Unsigned64, None))
    );
    assert_eq!(
        decode_by_ordinal::<E>(text("0")),
        Err(Error::TypeMismatch(Shape::Unsigned64, None))
    );
}

#[test]
fn channel_type_names() {
    check_names(
        "ChannelType",
        &[
            (ChannelType::Group, "group"),
            (ChannelType::Private, "private"),
            (ChannelType::Text, "text"),
            (ChannelType::Voice, "voice"),
        ],
    );
}

#[test]
fn channel_type_ordinals() {
    check_ordinals(
        "ChannelType",
        &[ChannelType::Group, ChannelType::Private, ChannelType::Text, ChannelType::Voice],
    );
}

#[test]
fn channel_kind_by_name_by_ordinal_and_bogus() {
    assert_eq!(decode_by_name::<ChannelType>(text("text")), Ok(ChannelType::Text));
    assert_eq!(decode_by_ordinal::<ChannelType>(Value::Integer(2)), Ok(ChannelType::Text));
    assert_eq!(
        decode_by_name::<ChannelType>(text("bogus")),
        Err(Error::InvalidEnumValue("ChannelType", Raw::Name("bogus".to_string())))
    );
}

#[test]
fn a_codec_does_not_read_the_other_encoding() {
    assert_eq!(
        decode_by_name::<ChannelType>(Value::Integer(2)),
        Err(Error::TypeMismatch(Shape::Text, None))
    );
    assert_eq!(
        decode_by_ordinal::<ChannelType>(text("text")),
        Err(Error::TypeMismatch(Shape::Unsigned64, None))
    );
    assert_eq!(
        decode_by_name::<ChannelType>(text("2")),
        Err(Error::InvalidEnumValue("ChannelType", Raw::Name("2".to_string())))
    );
}

#[test]
fn connection_type_names() {
    check_names(
        "ConnectionType",
        &[
            (ConnectionType::BattleNet, "battlenet"),
            (ConnectionType::Steam, "steam"),
            (ConnectionType::Twitch, "twitch"),
            (ConnectionType::YouTube, "youtube"),
        ],
    );
}

#[test]
fn default_avatar_names() {
    check_names(
        "DefaultAvatar",
        &[
            (DefaultAvatar::Blurple, "6debd47ed13483642cf09e832ed0bc1b"),
            (DefaultAvatar::Grey, "322c936a8c8be1b803cd94861bdfa868"),
            (DefaultAvatar::Green, "dd4dbc0016779df1378e7812eabaa04d"),
            (DefaultAvatar::Orange, "0e291f67c9274a1abdddeb3fd919cbaa"),
            (DefaultAvatar::Red, "1cbd08c76f8af6dddce02c5138971129"),
        ],
    );
}

#[test]
fn feature_names() {
    check_names(
        "Feature",
        &[
            (Feature::InviteSplash, "INVITE_SPLASH"),
            (Feature::VanityUrl, "VANITY_URL"),
            (Feature::VipRegions, "VIP_REGIONS"),
        ],
    );
}

#[test]
fn game_type_ordinals() {
    check_ordinals("GameType", &[GameType::Playing, GameType::Streaming]);
}

#[test]
fn incident_status_names() {
    check_names(
        "IncidentStatus",
        &[
            (IncidentStatus::Identified, "identified"),
            (IncidentStatus::Investigating, "investigating"),
            (IncidentStatus::Monitoring, "monitoring"),
            (IncidentStatus::Postmortem, "postmortem"),
            (IncidentStatus::Resolved, "resolved"),
        ],
    );
}

#[test]
fn message_type_ordinals() {
    check_ordinals(
        "MessageType",
        &[
            MessageType::Regular,
            MessageType::GroupRecipientAddition,
            MessageType::GroupRecipientRemoval,
            MessageType::GroupCallCreation,
            MessageType::GroupNameUpdate,
            MessageType::GroupIconUpdate,
            MessageType::PinsAdd,
        ],
    );
}

#[test]
fn notification_level_ordinals() {
    check_ordinals(
        "NotificationLevel",
        &[
            NotificationLevel::All,
            NotificationLevel::Mentions,
            NotificationLevel::Nothing,
            NotificationLevel::Parent,
        ],
    );
}

#[test]
fn online_status_names() {
    check_names(
        "OnlineStatus",
        &[
            (OnlineStatus::DoNotDisturb, "dnd"),
            (OnlineStatus::Idle, "idle"),
            (OnlineStatus::Invisible, "invisible"),
            (OnlineStatus::Offline, "offline"),
            (OnlineStatus::Online, "online"),
        ],
    );
}

#[test]
fn overwrite_target_names() {
    check_names(
        "OverwriteTarget",
        &[(OverwriteTarget::Member, "member"), (OverwriteTarget::Role, "role")],
    );
}

#[test]
fn region_names() {
    check_names(
        "Region",
        &[
            (Region::Amsterdam, "amsterdam"),
            (Region::Brazil, "brazil"),
            (Region::EuCentral, "eu-central"),
            (Region::EuWest, "eu-west"),
            (Region::Frankfurt, "frankfurt"),
            (Region::London, "london"),
            (Region::Syndey, "sydney"),
            (Region::UsCentral, "us-central"),
            (Region::UsEast, "us-east"),
            (Region::UsSouth, "us-south"),
            (Region::UsWest, "us-west"),
            (Region::VipAmsterdam, "vip-amsterdam"),
            (Region::VipUsEast, "vip-us-east"),
            (Region::VipUsWest, "vip-us-west"),
        ],
    );
}

#[test]
fn relationship_type_ordinals() {
    check_ordinals(
        "RelationshipType",
        &[
            RelationshipType::Blocked,
            RelationshipType::Friends,
            RelationshipType::IncomingRequest,
            RelationshipType::Ignored,
            RelationshipType::OutgoingRequest,
        ],
    );
}

#[test]
fn verification_level_ordinals() {
    check_ordinals(
        "VerificationLevel",
        &[
            VerificationLevel::High,
            VerificationLevel::Low,
            VerificationLevel::Medium,
            VerificationLevel::Unrestricted,
        ],
    );
}

#[test]
fn named_and_numbered_fields() {
    assert_eq!(<Named<ChannelType>>::decode(text("voice")), Ok(Named(ChannelType::Voice)));
    assert_eq!(
        <Numbered<ChannelType>>::decode(Value::Integer(3)),
        Ok(Numbered(ChannelType::Voice))
    );
    assert_eq!(
        <Named<ChannelType>>::decode(Value::Integer(3)),
        Err(Error::TypeMismatch(Shape::Text, None))
    );
    assert_eq!(
        <Numbered<ChannelType>>::decode(Value::Integer(4)),
        Err(Error::InvalidEnumValue("ChannelType", Raw::Ordinal(4)))
    );
}

#[test]
fn named_members_keeps_the_order() {
    assert_eq!(
        named_members(vec![Named(Feature::VipRegions), Named(Feature::InviteSplash)]),
        vec![Feature::VipRegions, Feature::InviteSplash]
    );
    assert_eq!(named_members(Vec::<Named<Feature>>::new()), vec![]);
}

#[test]
fn peek_ordinal_reads_and_leaves_the_field() {
    let mut m = Mapping::new();
    m.insert("type".to_string(), Value::Integer(1));
    m.insert("name".to_string(), text("a"));
    m.insert("big".to_string(), Value::Integer(77));
    assert_eq!(peek_ordinal::<ChannelType>(&m, "type"), Ok(ChannelType::Private));
    assert!(m.contains_key("type"));
    assert_eq!(peek_ordinal::<ChannelType>(&m, "kind"), Err(Error::MissingField("kind")));
    assert_eq!(
        peek_ordinal::<ChannelType>(&m, "name"),
        Err(Error::TypeMismatch(Shape::Unsigned64, Some("name")))
    );
    assert_eq!(
        peek_ordinal::<ChannelType>(&m, "big"),
        Err(Error::NestedDecodeFailure(
            "big",
            Box::new(Error::InvalidEnumValue("ChannelType", Raw::Ordinal(77)))
        ))
    );
}
