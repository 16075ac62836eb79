//! The closed enumerations of the model, each with its codecs.

use crate::codec::NamedEnum;
use crate::codec::OrdinalEnum;
use crate::text::same_text;
use vstd::prelude::*;

verus! {

/// The kind of a channel.
#[derive(Clone, Copy, Debug, PartialEq, Eq, Structural, Hash)]
pub enum ChannelType {
    /// The channel of a group.
    Group,
    /// A private channel between two users.
    Private,
    /// A text channel of a guild.
    Text,
    /// A voice channel of a guild.
    Voice,
}

impl DeepView for ChannelType {
    type V = ChannelType;

    open spec fn deep_view(&self) -> ChannelType {
        *self
    }
}

impl ChannelType {
    /// What tells the names of the channel kinds apart: their lengths and, among names of one
    /// length, their letters.
    pub proof fn lemma_names()
        ensures
            "group"@.len() == 5,
            "private"@.len() == 7,
            "text"@.len() == 4,
            "voice"@.len() == 5,
            "group"@[0] == 'g',
            "voice"@[0] == 'v',
    {
        reveal_strlit("group");
        reveal_strlit("private");
        reveal_strlit("text");
        reveal_strlit("voice");
    }
}

impl NamedEnum for ChannelType {
    open spec fn kind_spec() -> &'static str {
        "ChannelType"
    }

    open spec fn name_spec(self) -> Seq<char> {
        match self {
            ChannelType::Group => "group"@,
            ChannelType::Private => "private"@,
            ChannelType::Text => "text"@,
            ChannelType::Voice => "voice"@,
        }
    }

    open spec fn from_name_spec(name: Seq<char>) -> Option<ChannelType> {
        if name == "group"@ {
            Some(ChannelType::Group)
        } else if name == "private"@ {
            Some(ChannelType::Private)
        } else if name == "text"@ {
            Some(ChannelType::Text)
        } else if name == "voice"@ {
            Some(ChannelType::Voice)
        } else {
            None
        }
    }

    fn kind() -> (r: &'static str) {
        "ChannelType"
    }

    fn name_of(&self) -> (r: &'static str) {
        match self {
            ChannelType::Group => "group",
            ChannelType::Private => "private",
            ChannelType::Text => "text",
            ChannelType::Voice => "voice",
        }
    }

    fn variant_from_name(name: &str) -> (r: Option<ChannelType>) {
        if same_text(name, "group") {
            Some(ChannelType::Group)
        } else if same_text(name, "private") {
            Some(ChannelType::Private)
        } else if same_text(name, "text") {
            Some(ChannelType::Text)
        } else if same_text(name, "voice") {
            Some(ChannelType::Voice)
        } else {
            None
        }
    }

    proof fn lemma_name_round_trip(member: ChannelType) {
        ChannelType::lemma_names();
    }

    proof fn lemma_name_exact(name: Seq<char>) {
    }
}

impl OrdinalEnum for ChannelType {
    open spec fn kind_spec() -> &'static str {
        "ChannelType"
    }

    open spec fn ordinal_spec(self) -> u64 {
        match self {
            ChannelType::Group => 0,
            ChannelType::Private => 1,
            ChannelType::Text => 2,
            ChannelType::Voice => 3,
        }
    }

    open spec fn from_ordinal_spec(ordinal: u64) -> Option<ChannelType> {
        if ordinal == 0 {
            Some(ChannelType::Group)
        } else if ordinal == 1 {
            Some(ChannelType::Private)
        } else if ordinal == 2 {
            Some(ChannelType::Text)
        } else if ordinal == 3 {
            Some(ChannelType::Voice)
        } else {
            None
        }
    }

    fn kind() -> (r: &'static str) {
        "ChannelType"
    }

    fn ordinal_of(&self) -> (r: u64) {
        match self {
            ChannelType::Group => 0,
            ChannelType::Private => 1,
            ChannelType::Text => 2,
            ChannelType::Voice => 3,
        }
    }

    fn variant_from_ordinal(ordinal: u64) -> (r: Option<ChannelType>) {
        match ordinal {
            0 => Some(ChannelType::Group),
            1 => Some(ChannelType::Private),
            2 => Some(ChannelType::Text),
            3 => Some(ChannelType::Voice),
            _ => None,
        }
    }

    proof fn lemma_ordinal_round_trip(member: ChannelType) {
    }

    proof fn lemma_ordinal_exact(ordinal: u64) {
    }
}

/// The service behind a connection of a user.
#[derive(Clone, Copy, Debug, PartialEq, Eq, Structural, Hash)]
pub enum ConnectionType {
    /// A Battle.net connection.
    BattleNet,
    /// A Steam connection.
    Steam,
    /// A Twitch.tv connection.
    Twitch,
    /// A YouTube Gaming connection.
    YouTube,
}

impl DeepView for ConnectionType {
    type V = ConnectionType;

    open spec fn deep_view(&self) -> ConnectionType {
        *self
    }
}

impl ConnectionType {
    /// What tells the names of the connection kinds apart: their lengths and, among names of
    /// one length, their letters.
    pub proof fn lemma_names()
        ensures
            "battlenet"@.len() == 9,
            "steam"@.len() == 5,
            "twitch"@.len() == 6,
            "youtube"@.len() == 7,
    {
        reveal_strlit("battlenet");
        reveal_strlit("steam");
        reveal_strlit("twitch");
        reveal_strlit("youtube");
    }
}

impl NamedEnum for ConnectionType {
    open spec fn kind_spec() -> &'static str {
        "ConnectionType"
    }

    open spec fn name_spec(self) -> Seq<char> {
        match self {
            ConnectionType::BattleNet => "battlenet"@,
            ConnectionType::Steam => "steam"@,
            ConnectionType::Twitch => "twitch"@,
            ConnectionType::YouTube => "youtube"@,
        }
    }

    open spec fn from_name_spec(name: Seq<char>) -> Option<ConnectionType> {
        if name == "battlenet"@ {
            Some(ConnectionType::BattleNet)
        } else if name == "steam"@ {
            Some(ConnectionType::Steam)
        } else if name == "twitch"@ {
            Some(ConnectionType::Twitch)
        } else if name == "youtube"@ {
            Some(ConnectionType::YouTube)
        } else {
            None
        }
    }

    fn kind() -> (r: &'static str) {
        "ConnectionType"
    }

    fn name_of(&self) -> (r: &'static str) {
        match self {
            ConnectionType::BattleNet => "battlenet",
            ConnectionType::Steam => "steam",
            ConnectionType::Twitch => "twitch",
            ConnectionType::YouTube => "youtube",
        }
    }

    fn variant_from_name(name: &str) -> (r: Option<ConnectionType>) {
        if same_text(name, "battlenet") {
            Some(ConnectionType::BattleNet)
        } else if same_text(name, "steam") {
            Some(ConnectionType::Steam)
        } else if same_text(name, "twitch") {
            Some(ConnectionType::Twitch)
        } else if same_text(name, "youtube") {
            Some(ConnectionType::YouTube)
        } else {
            None
        }
    }

    proof fn lemma_name_round_trip(member: ConnectionType) {
        ConnectionType::lemma_names();
    }

    proof fn lemma_name_exact(name: Seq<char>) {
    }
}

/// A default avatar; the name of each is the hash of its image.
#[derive(Clone, Copy, Debug, PartialEq, Eq, Structural, Hash)]
pub enum DefaultAvatar {
    /// The avatar for a discriminator that leaves 0 when divided by 5.
    Blurple,
    /// The avatar for a discriminator that leaves 1.
    Grey,
    /// The avatar for a discriminator that leaves 2.
    Green,
    /// The avatar for a discriminator that leaves 3.
    Orange,
    /// The avatar for a discriminator that leaves 4.
    Red,
}

impl DeepView for DefaultAvatar {
    type V = DefaultAvatar;

    open spec fn deep_view(&self) -> DefaultAvatar {
        *self
    }
}

impl DefaultAvatar {
    /// What tells the names of the default avatars apart: their lengths and, among names of one
    /// length, their letters.
    pub proof fn lemma_names()
        ensures
            "6debd47ed13483642cf09e832ed0bc1b"@.len() == 32,
            "322c936a8c8be1b803cd94861bdfa868"@.len() == 32,
            "dd4dbc0016779df1378e7812eabaa04d"@.len() == 32,
            "0e291f67c9274a1abdddeb3fd919cbaa"@.len() == 32,
            "1cbd08c76f8af6dddce02c5138971129"@.len() == 32,
            "6debd47ed13483642cf09e832ed0bc1b"@[0] == '6',
            "322c936a8c8be1b803cd94861bdfa868"@[0] == '3',
            "dd4dbc0016779df1378e7812eabaa04d"@[0] == 'd',
            "0e291f67c9274a1abdddeb3fd919cbaa"@[0] == '0',
            "1cbd08c76f8af6dddce02c5138971129"@[0] == '1',
    {
        reveal_strlit("6debd47ed13483642cf09e832ed0bc1b");
        reveal_strlit("322c936a8c8be1b803cd94861bdfa868");
        reveal_strlit("dd4dbc0016779df1378e7812eabaa04d");
        reveal_strlit("0e291f67c9274a1abdddeb3fd919cbaa");
        reveal_strlit("1cbd08c76f8af6dddce02c5138971129");
    }
}

impl NamedEnum for DefaultAvatar {
    open spec fn kind_spec() -> &'static str {
        "DefaultAvatar"
    }

    open spec fn name_spec(self) -> Seq<char> {
        match self {
            DefaultAvatar::Blurple => "6debd47ed13483642cf09e832ed0bc1b"@,
            DefaultAvatar::Grey => "322c936a8c8be1b803cd94861bdfa868"@,
            DefaultAvatar::Green => "dd4dbc0016779df1378e7812eabaa04d"@,
            DefaultAvatar::Orange => "0e291f67c9274a1abdddeb3fd919cbaa"@,
            DefaultAvatar::Red => "1cbd08c76f8af6dddce02c5138971129"@,
        }
    }

    open spec fn from_name_spec(name: Seq<char>) -> Option<DefaultAvatar> {
        if name == "6debd47ed13483642cf09e832ed0bc1b"@ {
            Some(DefaultAvatar::Blurple)
        } else if name == "322c936a8c8be1b803cd94861bdfa868"@ {
            Some(DefaultAvatar::Grey)
        } else if name == "dd4dbc0016779df1378e7812eabaa04d"@ {
            Some(DefaultAvatar::Green)
        } else if name == "0e291f67c9274a1abdddeb3fd919cbaa"@ {
            Some(DefaultAvatar::Orange)
        } else if name == "1cbd08c76f8af6dddce02c5138971129"@ {
            Some(DefaultAvatar::Red)
        } else {
            None
        }
    }

    fn kind() -> (r: &'static str) {
        "DefaultAvatar"
    }

    fn name_of(&self) -> (r: &'static str) {
        match self {
            DefaultAvatar::Blurple => "6debd47ed13483642cf09e832ed0bc1b",
            DefaultAvatar::Grey => "322c936a8c8be1b803cd94861bdfa868",
            DefaultAvatar::Green => "dd4dbc0016779df1378e7812eabaa04d",
            DefaultAvatar::Orange => "0e291f67c9274a1abdddeb3fd919cbaa",
            DefaultAvatar::Red => "1cbd08c76f8af6dddce02c5138971129",
        }
    }

    fn variant_from_name(name: &str) -> (r: Option<DefaultAvatar>) {
        if same_text(name, "6debd47ed13483642cf09e832ed0bc1b") {
            Some(DefaultAvatar::Blurple)
        } else if same_text(name, "322c936a8c8be1b803cd94861bdfa868") {
            Some(DefaultAvatar::Grey)
        } else if same_text(name, "dd4dbc0016779df1378e7812eabaa04d") {
            Some(DefaultAvatar::Green)
        } else if same_text(name, "0e291f67c9274a1abdddeb3fd919cbaa") {
            Some(DefaultAvatar::Orange)
        } else if same_text(name, "1cbd08c76f8af6dddce02c5138971129") {
            Some(DefaultAvatar::Red)
        } else {
            None
        }
    }

    proof fn lemma_name_round_trip(member: DefaultAvatar) {
        DefaultAvatar::lemma_names();
    }

    proof fn lemma_name_exact(name: Seq<char>) {
    }
}

/// A special feature that a guild has been granted.
#[derive(Clone, Copy, Debug, PartialEq, Eq, Structural, Hash)]
pub enum Feature {
    /// The guild can set a splash image on invite URLs.
    InviteSplash,
    /// The guild can set a custom-named permanent invite URL.
    VanityUrl,
    /// The guild has access to VIP voice regions.
    VipRegions,
}

impl DeepView for Feature {
    type V = Feature;

    open spec fn deep_view(&self) -> Feature {
        *self
    }
}

impl Feature {
    /// What tells the names of the guild features apart: their lengths and, among names of one
    /// length, their letters.
    pub proof fn lemma_names()
        ensures
            "INVITE_SPLASH"@.len() == 13,
            "VANITY_URL"@.len() == 10,
            "VIP_REGIONS"@.len() == 11,
    {
        reveal_strlit("INVITE_SPLASH");
        reveal_strlit("VANITY_URL");
        reveal_strlit("VIP_REGIONS");
    }
}

impl NamedEnum for Feature {
    open spec fn kind_spec() -> &'static str {
        "Feature"
    }

    open spec fn name_spec(self) -> Seq<char> {
        match self {
            Feature::InviteSplash => "INVITE_SPLASH"@,
            Feature::VanityUrl => "VANITY_URL"@,
            Feature::VipRegions => "VIP_REGIONS"@,
        }
    }

    open spec fn from_name_spec(name: Seq<char>) -> Option<Feature> {
        if name == "INVITE_SPLASH"@ {
            Some(Feature::InviteSplash)
        } else if name == "VANITY_URL"@ {
            Some(Feature::VanityUrl)
        } else if name == "VIP_REGIONS"@ {
            Some(Feature::VipRegions)
        } else {
            None
        }
    }

    fn kind() -> (r: &'static str) {
        "Feature"
    }

    fn name_of(&self) -> (r: &'static str) {
        match self {
            Feature::InviteSplash => "INVITE_SPLASH",
            Feature::VanityUrl => "VANITY_URL",
            Feature::VipRegions => "VIP_REGIONS",
        }
    }

    fn variant_from_name(name: &str) -> (r: Option<Feature>) {
        if same_text(name, "INVITE_SPLASH") {
            Some(Feature::InviteSplash)
        } else if same_text(name, "VANITY_URL") {
            Some(Feature::VanityUrl)
        } else if same_text(name, "VIP_REGIONS") {
            Some(Feature::VipRegions)
        } else {
            None
        }
    }

    proof fn lemma_name_round_trip(member: Feature) {
        Feature::lemma_names();
    }

    proof fn lemma_name_exact(name: Seq<char>) {
    }
}

/// The kind of activity of a game status.
#[derive(Clone, Copy, Debug, PartialEq, Eq, Structural, Hash)]
pub enum GameType {
    /// The user is playing a game.
    Playing,
    /// The user is streaming to a service.
    Streaming,
}

impl DeepView for GameType {
    type V = GameType;

    open spec fn deep_view(&self) -> GameType {
        *self
    }
}

impl OrdinalEnum for GameType {
    open spec fn kind_spec() -> &'static str {
        "GameType"
    }

    open spec fn ordinal_spec(self) -> u64 {
        match self {
            GameType::Playing => 0,
            GameType::Streaming => 1,
        }
    }

    open spec fn from_ordinal_spec(ordinal: u64) -> Option<GameType> {
        if ordinal == 0 {
            Some(GameType::Playing)
        } else if ordinal == 1 {
            Some(GameType::Streaming)
        } else {
            None
        }
    }

    fn kind() -> (r: &'static str) {
        "GameType"
    }

    fn ordinal_of(&self) -> (r: u64) {
        match self {
            GameType::Playing => 0,
            GameType::Streaming => 1,
        }
    }

    fn variant_from_ordinal(ordinal: u64) -> (r: Option<GameType>) {
        match ordinal {
            0 => Some(GameType::Playing),
            1 => Some(GameType::Streaming),
            _ => None,
        }
    }

    proof fn lemma_ordinal_round_trip(member: GameType) {
    }

    proof fn lemma_ordinal_exact(ordinal: u64) {
    }
}

/// The state of a service incident at one of its updates.
#[derive(Clone, Copy, Debug, PartialEq, Eq, Structural, Hash)]
pub enum IncidentStatus {
    /// The cause has been identified.
    Identified,
    /// The incident is being investigated.
    Investigating,
    /// A fix is in place and is being watched.
    Monitoring,
    /// The incident is over and has been written up.
    Postmortem,
    /// The incident is over.
    Resolved,
}

impl DeepView for IncidentStatus {
    type V = IncidentStatus;

    open spec fn deep_view(&self) -> IncidentStatus {
        *self
    }
}

impl IncidentStatus {
    /// What tells the names of the incident states apart: their lengths and, among names of one
    /// length, their letters.
    pub proof fn lemma_names()
        ensures
            "identified"@.len() == 10,
            "investigating"@.len() == 13,
            "monitoring"@.len() == 10,
            "postmortem"@.len() == 10,
            "resolved"@.len() == 8,
            "identified"@[0] == 'i',
            "monitoring"@[0] == 'm',
            "postmortem"@[0] == 'p',
    {
        reveal_strlit("identified");
        reveal_strlit("investigating");
        reveal_strlit("monitoring");
        reveal_strlit("postmortem");
        reveal_strlit("resolved");
    }
}

impl NamedEnum for IncidentStatus {
    open spec fn kind_spec() -> &'static str {
        "IncidentStatus"
    }

    open spec fn name_spec(self) -> Seq<char> {
        match self {
            IncidentStatus::Identified => "identified"@,
            IncidentStatus::Investigating => "investigating"@,
            IncidentStatus::Monitoring => "monitoring"@,
            IncidentStatus::Postmortem => "postmortem"@,
            IncidentStatus::Resolved => "resolved"@,
        }
    }

    open spec fn from_name_spec(name: Seq<char>) -> Option<IncidentStatus> {
        if name == "identified"@ {
            Some(IncidentStatus::Identified)
        } else if name == "investigating"@ {
            Some(IncidentStatus::Investigating)
        } else if name == "monitoring"@ {
            Some(IncidentStatus::Monitoring)
        } else if name == "postmortem"@ {
            Some(IncidentStatus::Postmortem)
        } else if name == "resolved"@ {
            Some(IncidentStatus::Resolved)
        } else {
            None
        }
    }

    fn kind() -> (r: &'static str) {
        "IncidentStatus"
    }

    fn name_of(&self) -> (r: &'static str) {
        match self {
            IncidentStatus::Identified => "identified",
            IncidentStatus::Investigating => "investigating",
            IncidentStatus::Monitoring => "monitoring",
            IncidentStatus::Postmortem => "postmortem",
            IncidentStatus::Resolved => "resolved",
        }
    }

    fn variant_from_name(name: &str) -> (r: Option<IncidentStatus>) {
        if same_text(name, "identified") {
            Some(IncidentStatus::Identified)
        } else if same_text(name, "investigating") {
            Some(IncidentStatus::Investigating)
        } else if same_text(name, "monitoring") {
            Some(IncidentStatus::Monitoring)
        } else if same_text(name, "postmortem") {
            Some(IncidentStatus::Postmortem)
        } else if same_text(name, "resolved") {
            Some(IncidentStatus::Resolved)
        } else {
            None
        }
    }

    proof fn lemma_name_round_trip(member: IncidentStatus) {
        IncidentStatus::lemma_names();
    }

    proof fn lemma_name_exact(name: Seq<char>) {
    }
}

/// Whether a message is a regular one or one that the system wrote.
#[derive(Clone, Copy, Debug, PartialEq, Eq, Structural, Hash)]
pub enum MessageType {
    /// A message that a user wrote.
    Regular,
    /// A user was added to a group.
    GroupRecipientAddition,
    /// A user was removed from a group.
    GroupRecipientRemoval,
    /// A call was started in a group.
    GroupCallCreation,
    /// The name of a group was changed.
    GroupNameUpdate,
    /// The icon of a group was changed.
    GroupIconUpdate,
    /// A message was pinned.
    PinsAdd,
}

impl DeepView for MessageType {
    type V = MessageType;

    open spec fn deep_view(&self) -> MessageType {
        *self
    }
}

impl OrdinalEnum for MessageType {
    open spec fn kind_spec() -> &'static str {
        "MessageType"
    }

    open spec fn ordinal_spec(self) -> u64 {
        match self {
            MessageType::Regular => 0,
            MessageType::GroupRecipientAddition => 1,
            MessageType::GroupRecipientRemoval => 2,
            MessageType::GroupCallCreation => 3,
            MessageType::GroupNameUpdate => 4,
            MessageType::GroupIconUpdate => 5,
            MessageType::PinsAdd => 6,
        }
    }

    open spec fn from_ordinal_spec(ordinal: u64) -> Option<MessageType> {
        if ordinal == 0 {
            Some(MessageType::Regular)
        } else if ordinal == 1 {
            Some(MessageType::GroupRecipientAddition)
        } else if ordinal == 2 {
            Some(MessageType::GroupRecipientRemoval)
        } else if ordinal == 3 {
            Some(MessageType::GroupCallCreation)
        } else if ordinal == 4 {
            Some(MessageType::GroupNameUpdate)
        } else if ordinal == 5 {
            Some(MessageType::GroupIconUpdate)
        } else if ordinal == 6 {
            Some(MessageType::PinsAdd)
        } else {
            None
        }
    }

    fn kind() -> (r: &'static str) {
        "MessageType"
    }

    fn ordinal_of(&self) -> (r: u64) {
        match self {
            MessageType::Regular => 0,
            MessageType::GroupRecipientAddition => 1,
            MessageType::GroupRecipientRemoval => 2,
            MessageType::GroupCallCreation => 3,
            MessageType::GroupNameUpdate => 4,
            MessageType::GroupIconUpdate => 5,
            MessageType::PinsAdd => 6,
        }
    }

    fn variant_from_ordinal(ordinal: u64) -> (r: Option<MessageType>) {
        match ordinal {
            0 => Some(MessageType::Regular),
            1 => Some(MessageType::GroupRecipientAddition),
            2 => Some(MessageType::GroupRecipientRemoval),
            3 => Some(MessageType::GroupCallCreation),
            4 => Some(MessageType::GroupNameUpdate),
            5 => Some(MessageType::GroupIconUpdate),
            6 => Some(MessageType::PinsAdd),
            _ => None,
        }
    }

    proof fn lemma_ordinal_round_trip(member: MessageType) {
    }

    proof fn lemma_ordinal_exact(ordinal: u64) {
    }
}

/// Which messages of a channel or guild notify the user.
#[derive(Clone, Copy, Debug, PartialEq, Eq, Structural, Hash)]
pub enum NotificationLevel {
    /// Every message notifies.
    All,
    /// Only mentions notify.
    Mentions,
    /// No message notifies.
    Nothing,
    /// The level of the guild is taken.
    Parent,
}

impl DeepView for NotificationLevel {
    type V = NotificationLevel;

    open spec fn deep_view(&self) -> NotificationLevel {
        *self
    }
}

impl OrdinalEnum for NotificationLevel {
    open spec fn kind_spec() -> &'static str {
        "NotificationLevel"
    }

    open spec fn ordinal_spec(self) -> u64 {
        match self {
            NotificationLevel::All => 0,
            NotificationLevel::Mentions => 1,
            NotificationLevel::Nothing => 2,
            NotificationLevel::Parent => 3,
        }
    }

    open spec fn from_ordinal_spec(ordinal: u64) -> Option<NotificationLevel> {
        if ordinal == 0 {
            Some(NotificationLevel::All)
        } else if ordinal == 1 {
            Some(NotificationLevel::Mentions)
        } else if ordinal == 2 {
            Some(NotificationLevel::Nothing)
        } else if ordinal == 3 {
            Some(NotificationLevel::Parent)
        } else {
            None
        }
    }

    fn kind() -> (r: &'static str) {
        "NotificationLevel"
    }

    fn ordinal_of(&self) -> (r: u64) {
        match self {
            NotificationLevel::All => 0,
            NotificationLevel::Mentions => 1,
            NotificationLevel::Nothing => 2,
            NotificationLevel::Parent => 3,
        }
    }

    fn variant_from_ordinal(ordinal: u64) -> (r: Option<NotificationLevel>) {
        match ordinal {
            0 => Some(NotificationLevel::All),
            1 => Some(NotificationLevel::Mentions),
            2 => Some(NotificationLevel::Nothing),
            3 => Some(NotificationLevel::Parent),
            _ => None,
        }
    }

    proof fn lemma_ordinal_round_trip(member: NotificationLevel) {
    }

    proof fn lemma_ordinal_exact(ordinal: u64) {
    }
}

/// The status of a user, such as online or idle.
#[derive(Clone, Copy, Debug, PartialEq, Eq, Structural, Hash)]
pub enum OnlineStatus {
    /// The user does not want to be disturbed.
    DoNotDisturb,
    /// The user is idle.
    Idle,
    /// The user hides being online.
    Invisible,
    /// The user is offline.
    Offline,
    /// The user is online.
    Online,
}

impl DeepView for OnlineStatus {
    type V = OnlineStatus;

    open spec fn deep_view(&self) -> OnlineStatus {
        *self
    }
}

impl OnlineStatus {
    /// What tells the names of the online statuses apart: their lengths and, among names of one
    /// length, their letters.
    pub proof fn lemma_names()
        ensures
            "dnd"@.len() == 3,
            "idle"@.len() == 4,
            "invisible"@.len() == 9,
            "offline"@.len() == 7,
            "online"@.len() == 6,
    {
        reveal_strlit("dnd");
        reveal_strlit("idle");
        reveal_strlit("invisible");
        reveal_strlit("offline");
        reveal_strlit("online");
    }
}

impl NamedEnum for OnlineStatus {
    open spec fn kind_spec() -> &'static str {
        "OnlineStatus"
    }

    open spec fn name_spec(self) -> Seq<char> {
        match self {
            OnlineStatus::DoNotDisturb => "dnd"@,
            OnlineStatus::Idle => "idle"@,
            OnlineStatus::Invisible => "invisible"@,
            OnlineStatus::Offline => "offline"@,
            OnlineStatus::Online => "online"@,
        }
    }

    open spec fn from_name_spec(name: Seq<char>) -> Option<OnlineStatus> {
        if name == "dnd"@ {
            Some(OnlineStatus::DoNotDisturb)
        } else if name == "idle"@ {
            Some(OnlineStatus::Idle)
        } else if name == "invisible"@ {
            Some(OnlineStatus::Invisible)
        } else if name == "offline"@ {
            Some(OnlineStatus::Offline)
        } else if name == "online"@ {
            Some(OnlineStatus::Online)
        } else {
            None
        }
    }

    fn kind() -> (r: &'static str) {
        "OnlineStatus"
    }

    fn name_of(&self) -> (r: &'static str) {
        match self {
            OnlineStatus::DoNotDisturb => "dnd",
            OnlineStatus::Idle => "idle",
            OnlineStatus::Invisible => "invisible",
            OnlineStatus::Offline => "offline",
            OnlineStatus::Online => "online",
        }
    }

    fn variant_from_name(name: &str) -> (r: Option<OnlineStatus>) {
        if same_text(name, "dnd") {
            Some(OnlineStatus::DoNotDisturb)
        } else if same_text(name, "idle") {
            Some(OnlineStatus::Idle)
        } else if same_text(name, "invisible") {
            Some(OnlineStatus::Invisible)
        } else if same_text(name, "offline") {
            Some(OnlineStatus::Offline)
        } else if same_text(name, "online") {
            Some(OnlineStatus::Online)
        } else {
            None
        }
    }

    proof fn lemma_name_round_trip(member: OnlineStatus) {
        OnlineStatus::lemma_names();
    }

    proof fn lemma_name_exact(name: Seq<char>) {
    }
}

/// A region in which the voice server of a guild can be located.
#[derive(Clone, Copy, Debug, PartialEq, Eq, Structural, Hash)]
pub enum Region {
    /// Amsterdam.
    Amsterdam,
    /// Brazil.
    Brazil,
    /// Central Europe.
    EuCentral,
    /// Western Europe.
    EuWest,
    /// Frankfurt.
    Frankfurt,
    /// London.
    London,
    /// Sydney.
    Syndey,
    /// The central United States.
    UsCentral,
    /// The east of the United States.
    UsEast,
    /// The south of the United States.
    UsSouth,
    /// The west of the United States.
    UsWest,
    /// Amsterdam, for VIP guilds.
    VipAmsterdam,
    /// The east of the United States, for VIP guilds.
    VipUsEast,
    /// The west of the United States, for VIP guilds.
    VipUsWest,
}

impl DeepView for Region {
    type V = Region;

    open spec fn deep_view(&self) -> Region {
        *self
    }
}

impl Region {
    /// What tells the names of the regions apart: their lengths and, among names of one length,
    /// their letters.
    pub proof fn lemma_names()
        ensures
            "amsterdam"@.len() == 9,
            "brazil"@.len() == 6,
            "eu-central"@.len() == 10,
            "eu-west"@.len() == 7,
            "frankfurt"@.len() == 9,
            "london"@.len() == 6,
            "sydney"@.len() == 6,
            "us-central"@.len() == 10,
            "us-east"@.len() == 7,
            "us-south"@.len() == 8,
            "us-west"@.len() == 7,
            "vip-amsterdam"@.len() == 13,
            "vip-us-east"@.len() == 11,
            "vip-us-west"@.len() == 11,
            "brazil"@[0] == 'b',
            "london"@[0] == 'l',
            "sydney"@[0] == 's',
            "eu-west"@[0] == 'e',
            "us-east"@[0] == 'u',
            "us-west"@[0] == 'u',
            "eu-west"@[3] == 'w',
            "us-east"@[3] == 'e',
            "us-west"@[3] == 'w',
            "amsterdam"@[0] == 'a',
            "frankfurt"@[0] == 'f',
            "eu-central"@[0] == 'e',
            "us-central"@[0] == 'u',
            "vip-us-east"@[7] == 'e',
            "vip-us-west"@[7] == 'w',
    {
        reveal_strlit("amsterdam");
        reveal_strlit("brazil");
        reveal_strlit("eu-central");
        reveal_strlit("eu-west");
        reveal_strlit("frankfurt");
        reveal_strlit("london");
        reveal_strlit("sydney");
        reveal_strlit("us-central");
        reveal_strlit("us-east");
        reveal_strlit("us-south");
        reveal_strlit("us-west");
        reveal_strlit("vip-amsterdam");
        reveal_strlit("vip-us-east");
        reveal_strlit("vip-us-west");
    }
}

impl NamedEnum for Region {
    open spec fn kind_spec() -> &'static str {
        "Region"
    }

    open spec fn name_spec(self) -> Seq<char> {
        match self {
            Region::Amsterdam => "amsterdam"@,
            Region::Brazil => "brazil"@,
            Region::EuCentral => "eu-central"@,
            Region::EuWest => "eu-west"@,
            Region::Frankfurt => "frankfurt"@,
            Region::London => "london"@,
            Region::Syndey => "sydney"@,
            Region::UsCentral => "us-central"@,
            Region::UsEast => "us-east"@,
            Region::UsSouth => "us-south"@,
            Region::UsWest => "us-west"@,
            Region::VipAmsterdam => "vip-amsterdam"@,
            Region::VipUsEast => "vip-us-east"@,
            Region::VipUsWest => "vip-us-west"@,
        }
    }

    open spec fn from_name_spec(name: Seq<char>) -> Option<Region> {
        if name == "amsterdam"@ {
            Some(Region::Amsterdam)
        } else if name == "brazil"@ {
            Some(Region::Brazil)
        } else if name == "eu-central"@ {
            Some(Region::EuCentral)
        } else if name == "eu-west"@ {
            Some(Region::EuWest)
        } else if name == "frankfurt"@ {
            Some(Region::Frankfurt)
        } else if name == "london"@ {
            Some(Region::London)
        } else if name == "sydney"@ {
            Some(Region::Syndey)
        } else if name == "us-central"@ {
            Some(Region::UsCentral)
        } else if name == "us-east"@ {
            Some(Region::UsEast)
        } else if name == "us-south"@ {
            Some(Region::UsSouth)
        } else if name == "us-west"@ {
            Some(Region::UsWest)
        } else if name == "vip-amsterdam"@ {
            Some(Region::VipAmsterdam)
        } else if name == "vip-us-east"@ {
            Some(Region::VipUsEast)
        } else if name == "vip-us-west"@ {
            Some(Region::VipUsWest)
        } else {
            None
        }
    }

    fn kind() -> (r: &'static str) {
        "Region"
    }

    fn name_of(&self) -> (r: &'static str) {
        match self {
            Region::Amsterdam => "amsterdam",
            Region::Brazil => "brazil",
            Region::EuCentral => "eu-central",
            Region::EuWest => "eu-west",
            Region::Frankfurt => "frankfurt",
            Region::London => "london",
            Region::Syndey => "sydney",
            Region::UsCentral => "us-central",
            Region::UsEast => "us-east",
            Region::UsSouth => "us-south",
            Region::UsWest => "us-west",
            Region::VipAmsterdam => "vip-amsterdam",
            Region::VipUsEast => "vip-us-east",
            Region::VipUsWest => "vip-us-west",
        }
    }

    fn variant_from_name(name: &str) -> (r: Option<Region>) {
        if same_text(name, "amsterdam") {
            Some(Region::Amsterdam)
        } else if same_text(name, "brazil") {
            Some(Region::Brazil)
        } else if same_text(name, "eu-central") {
            Some(Region::EuCentral)
        } else if same_text(name, "eu-west") {
            Some(Region::EuWest)
        } else if same_text(name, "frankfurt") {
            Some(Region::Frankfurt)
        } else if same_text(name, "london") {
            Some(Region::London)
        } else if same_text(name, "sydney") {
            Some(Region::Syndey)
        } else if same_text(name, "us-central") {
            Some(Region::UsCentral)
        } else if same_text(name, "us-east") {
            Some(Region::UsEast)
        } else if same_text(name, "us-south") {
            Some(Region::UsSouth)
        } else if same_text(name, "us-west") {
            Some(Region::UsWest)
        } else if same_text(name, "vip-amsterdam") {
            Some(Region::VipAmsterdam)
        } else if same_text(name, "vip-us-east") {
            Some(Region::VipUsEast)
        } else if same_text(name, "vip-us-west") {
            Some(Region::VipUsWest)
        } else {
            None
        }
    }

    proof fn lemma_name_round_trip(member: Region) {
        Region::lemma_names();
    }

    proof fn lemma_name_exact(name: Seq<char>) {
    }
}

/// Whom a permission overwrite is for.
#[derive(Clone, Copy, Debug, PartialEq, Eq, Structural, Hash)]
pub enum OverwriteTarget {
    /// The overwrite is for one member.
    Member,
    /// The overwrite is for the holders of a role.
    Role,
}

impl DeepView for OverwriteTarget {
    type V = OverwriteTarget;

    open spec fn deep_view(&self) -> OverwriteTarget {
        *self
    }
}

impl OverwriteTarget {
    /// What tells the names of the overwrite targets apart: their lengths and, among names of
    /// one length, their letters.
    pub proof fn lemma_names()
        ensures
            "member"@.len() == 6,
            "role"@.len() == 4,
    {
        reveal_strlit("member");
        reveal_strlit("role");
    }
}

impl NamedEnum for OverwriteTarget {
    open spec fn kind_spec() -> &'static str {
        "OverwriteTarget"
    }

    open spec fn name_spec(self) -> Seq<char> {
        match self {
            OverwriteTarget::Member => "member"@,
            OverwriteTarget::Role => "role"@,
        }
    }

    open spec fn from_name_spec(name: Seq<char>) -> Option<OverwriteTarget> {
        if name == "member"@ {
            Some(OverwriteTarget::Member)
        } else if name == "role"@ {
            Some(OverwriteTarget::Role)
        } else {
            None
        }
    }

    fn kind() -> (r: &'static str) {
        "OverwriteTarget"
    }

    fn name_of(&self) -> (r: &'static str) {
        match self {
            OverwriteTarget::Member => "member",
            OverwriteTarget::Role => "role",
        }
    }

    fn variant_from_name(name: &str) -> (r: Option<OverwriteTarget>) {
        if same_text(name, "member") {
            Some(OverwriteTarget::Member)
        } else if same_text(name, "role") {
            Some(OverwriteTarget::Role)
        } else {
            None
        }
    }

    proof fn lemma_name_round_trip(member: OverwriteTarget) {
        OverwriteTarget::lemma_names();
    }

    proof fn lemma_name_exact(name: Seq<char>) {
    }
}

/// The kind of relationship between two users.
#[derive(Clone, Copy, Debug, PartialEq, Eq, Structural, Hash)]
pub enum RelationshipType {
    /// One user has blocked the other.
    Blocked,
    /// The users are friends.
    Friends,
    /// A friend request was received.
    IncomingRequest,
    /// A friend request was ignored.
    Ignored,
    /// A friend request was sent.
    OutgoingRequest,
}

impl DeepView for RelationshipType {
    type V = RelationshipType;

    open spec fn deep_view(&self) -> RelationshipType {
        *self
    }
}

impl OrdinalEnum for RelationshipType {
    open spec fn kind_spec() -> &'static str {
        "RelationshipType"
    }

    open spec fn ordinal_spec(self) -> u64 {
        match self {
            RelationshipType::Blocked => 0,
            RelationshipType::Friends => 1,
            RelationshipType::IncomingRequest => 2,
            RelationshipType::Ignored => 3,
            RelationshipType::OutgoingRequest => 4,
        }
    }

    open spec fn from_ordinal_spec(ordinal: u64) -> Option<RelationshipType> {
        if ordinal == 0 {
            Some(RelationshipType::Blocked)
        } else if ordinal == 1 {
            Some(RelationshipType::Friends)
        } else if ordinal == 2 {
            Some(RelationshipType::IncomingRequest)
        } else if ordinal == 3 {
            Some(RelationshipType::Ignored)
        } else if ordinal == 4 {
            Some(RelationshipType::OutgoingRequest)
        } else {
            None
        }
    }

    fn kind() -> (r: &'static str) {
        "RelationshipType"
    }

    fn ordinal_of(&self) -> (r: u64) {
        match self {
            RelationshipType::Blocked => 0,
            RelationshipType::Friends => 1,
            RelationshipType::IncomingRequest => 2,
            RelationshipType::Ignored => 3,
            RelationshipType::OutgoingRequest => 4,
        }
    }

    fn variant_from_ordinal(ordinal: u64) -> (r: Option<RelationshipType>) {
        match ordinal {
            0 => Some(RelationshipType::Blocked),
            1 => Some(RelationshipType::Friends),
            2 => Some(RelationshipType::IncomingRequest),
            3 => Some(RelationshipType::Ignored),
            4 => Some(RelationshipType::OutgoingRequest),
            _ => None,
        }
    }

    proof fn lemma_ordinal_round_trip(member: RelationshipType) {
    }

    proof fn lemma_ordinal_exact(ordinal: u64) {
    }
}

/// What a guild asks of a user before the user may send messages.
#[derive(Clone, Copy, Debug, PartialEq, Eq, Structural, Hash)]
pub enum VerificationLevel {
    /// A verified e-mail address and more than 10 minutes of registration.
    High,
    /// A verified e-mail address.
    Low,
    /// A verified e-mail address and more than 5 minutes of registration.
    Medium,
    /// No verification.
    Unrestricted,
}

impl DeepView for VerificationLevel {
    type V = VerificationLevel;

    open spec fn deep_view(&self) -> VerificationLevel {
        *self
    }
}

impl OrdinalEnum for VerificationLevel {
    open spec fn kind_spec() -> &'static str {
        "VerificationLevel"
    }

    open spec fn ordinal_spec(self) -> u64 {
        match self {
            VerificationLevel::High => 0,
            VerificationLevel::Low => 1,
            VerificationLevel::Medium => 2,
            VerificationLevel::Unrestricted => 3,
        }
    }

    open spec fn from_ordinal_spec(ordinal: u64) -> Option<VerificationLevel> {
        if ordinal == 0 {
            Some(VerificationLevel::High)
        } else if ordinal == 1 {
            Some(VerificationLevel::Low)
        } else if ordinal == 2 {
            Some(VerificationLevel::Medium)
        } else if ordinal == 3 {
            Some(VerificationLevel::Unrestricted)
        } else {
            None
        }
    }

    fn kind() -> (r: &'static str) {
        "VerificationLevel"
    }

    fn ordinal_of(&self) -> (r: u64) {
        match self {
            VerificationLevel::High => 0,
            VerificationLevel::Low => 1,
            VerificationLevel::Medium => 2,
            VerificationLevel::Unrestricted => 3,
        }
    }

    fn variant_from_ordinal(ordinal: u64) -> (r: Option<VerificationLevel>) {
        match ordinal {
            0 => Some(VerificationLevel::High),
            1 => Some(VerificationLevel::Low),
            2 => Some(VerificationLevel::Medium),
            3 => Some(VerificationLevel::Unrestricted),
            _ => None,
        }
    }

    proof fn lemma_ordinal_round_trip(member: VerificationLevel) {
    }

    proof fn lemma_ordinal_exact(ordinal: u64) {
    }
}

} // verus!
