//! Voice states, voice regions and calls.

use crate::access::expect_map;
use crate::decode::Decode;
use crate::decode::fails_with;
use crate::decode::optional;
use crate::decode::optional_field;
use crate::decode::required;
use crate::decode::required_field;
use crate::error::Error;
use crate::error::Shape;
use crate::ident::ChannelId;
use crate::ident::MessageId;
use crate::ident::UserId;
use crate::keyed::IdMap;
use crate::keyed::Keyed;
use crate::value::Value;
use vstd::prelude::*;

verus! {

/// The state of a user in voice channels.
#[derive(Clone, Debug, PartialEq, Eq)]
pub struct VoiceState {
    /// The voice channel that the user is in, if any.
    pub channel_id: Option<ChannelId>,
    /// Whether the guild has deafened the user.
    pub deaf: bool,
    /// Whether the guild has muted the user.
    pub mute: bool,
    /// Whether the user has deafened itself.
    pub self_deaf: bool,
    /// Whether the user has muted itself.
    pub self_mute: bool,
    /// The id of the voice session.
    pub session_id: String,
    /// Whether the user is kept from speaking.
    pub suppress: bool,
    /// The token of the voice session, if one was given.
    pub token: Option<String>,
    /// The user.
    pub user_id: UserId,
}

/// The model of a voice state: what the record holds, as a mathematical value.
pub struct VoiceStateModel {
    pub channel_id: Option<ChannelId>,
    pub deaf: bool,
    pub mute: bool,
    pub self_deaf: bool,
    pub self_mute: bool,
    pub session_id: Seq<char>,
    pub suppress: bool,
    pub token: Option<Seq<char>>,
    pub user_id: UserId,
}

impl DeepView for VoiceState {
    type V = VoiceStateModel;

    open spec fn deep_view(&self) -> VoiceStateModel {
        VoiceStateModel {
            channel_id: self.channel_id.deep_view(),
            deaf: self.deaf.deep_view(),
            mute: self.mute.deep_view(),
            self_deaf: self.self_deaf.deep_view(),
            self_mute: self.self_mute.deep_view(),
            session_id: self.session_id.deep_view(),
            suppress: self.suppress.deep_view(),
            token: self.token.deep_view(),
            user_id: self.user_id.deep_view(),
        }
    }
}

impl VoiceState {
    /// What a mapping with the contents `source` gives as a voice state: the record put
    /// together from its fields, or the error of the first field, in the order written here,
    /// that fails.
    pub open spec fn from_fields(source: Map<Seq<char>, Value>) -> Result<VoiceStateModel, Error> {
        let channel_id = optional_field::<ChannelId>(source, "channel_id");
        let deaf = required_field::<bool>(source, "deaf");
        let mute = required_field::<bool>(source, "mute");
        let self_deaf = required_field::<bool>(source, "self_deaf");
        let self_mute = required_field::<bool>(source, "self_mute");
        let session_id = required_field::<String>(source, "session_id");
        let suppress = required_field::<bool>(source, "suppress");
        let token = optional_field::<String>(source, "token");
        let user_id = required_field::<UserId>(source, "user_id");
        if channel_id is Err {
            Err(channel_id->Err_0)
        } else if deaf is Err {
            Err(deaf->Err_0)
        } else if mute is Err {
            Err(mute->Err_0)
        } else if self_deaf is Err {
            Err(self_deaf->Err_0)
        } else if self_mute is Err {
            Err(self_mute->Err_0)
        } else if session_id is Err {
            Err(session_id->Err_0)
        } else if suppress is Err {
            Err(suppress->Err_0)
        } else if token is Err {
            Err(token->Err_0)
        } else if user_id is Err {
            Err(user_id->Err_0)
        } else {
            Ok(
                VoiceStateModel {
                    channel_id: channel_id->Ok_0,
                    deaf: deaf->Ok_0,
                    mute: mute->Ok_0,
                    self_deaf: self_deaf->Ok_0,
                    self_mute: self_mute->Ok_0,
                    session_id: session_id->Ok_0,
                    suppress: suppress->Ok_0,
                    token: token->Ok_0,
                    user_id: user_id->Ok_0,
                },
            )
        }
    }

    /// What tells the field names of a voice state apart: their lengths and, among names of one
    /// length, their letters.
    pub proof fn lemma_field_names()
        ensures
            "channel_id"@.len() == 10,
            "deaf"@.len() == 4,
            "mute"@.len() == 4,
            "self_deaf"@.len() == 9,
            "self_mute"@.len() == 9,
            "session_id"@.len() == 10,
            "suppress"@.len() == 8,
            "token"@.len() == 5,
            "user_id"@.len() == 7,
            "deaf"@[0] == 'd',
            "mute"@[0] == 'm',
            "self_deaf"@[5] == 'd',
            "self_mute"@[5] == 'm',
            "channel_id"@[0] == 'c',
            "session_id"@[0] == 's',
    {
        reveal_strlit("channel_id");
        reveal_strlit("deaf");
        reveal_strlit("mute");
        reveal_strlit("self_deaf");
        reveal_strlit("self_mute");
        reveal_strlit("session_id");
        reveal_strlit("suppress");
        reveal_strlit("token");
        reveal_strlit("user_id");
    }

    /// A mapping that holds the required fields of a voice state and no other, each with a
    /// value that decodes, is decoded.
    pub proof fn lemma_minimal_decodes(source: Map<Seq<char>, Value>)
        requires
            source.dom() =~= set![
                "deaf"@,
                "mute"@,
                "self_deaf"@,
                "self_mute"@,
                "session_id"@,
                "suppress"@,
                "user_id"@,
            ],
            bool::decoded(source["deaf"@]) is Ok,
            bool::decoded(source["mute"@]) is Ok,
            bool::decoded(source["self_deaf"@]) is Ok,
            bool::decoded(source["self_mute"@]) is Ok,
            String::decoded(source["session_id"@]) is Ok,
            bool::decoded(source["suppress"@]) is Ok,
            UserId::decoded(source["user_id"@]) is Ok,
        ensures
            VoiceState::from_fields(source) is Ok,
    {
        VoiceState::lemma_field_names();
    }

    /// Without one of its required fields, a mapping that was decoded as a voice state fails,
    /// and the error names exactly the field that is gone.
    pub proof fn lemma_missing_required_field(source: Map<Seq<char>, Value>)
        requires
            VoiceState::from_fields(source) is Ok,
        ensures
            fails_with(
                VoiceState::from_fields(source.remove("deaf"@)),
                Error::MissingField("deaf"),
            ),
            fails_with(
                VoiceState::from_fields(source.remove("mute"@)),
                Error::MissingField("mute"),
            ),
            fails_with(
                VoiceState::from_fields(source.remove("self_deaf"@)),
                Error::MissingField("self_deaf"),
            ),
            fails_with(
                VoiceState::from_fields(source.remove("self_mute"@)),
                Error::MissingField("self_mute"),
            ),
            fails_with(
                VoiceState::from_fields(source.remove("session_id"@)),
                Error::MissingField("session_id"),
            ),
            fails_with(
                VoiceState::from_fields(source.remove("suppress"@)),
                Error::MissingField("suppress"),
            ),
            fails_with(
                VoiceState::from_fields(source.remove("user_id"@)),
                Error::MissingField("user_id"),
            ),
    {
        VoiceState::lemma_field_names();
    }

    /// A field that a voice state does not have changes nothing: it is passed over, whatever it
    /// holds.
    pub proof fn lemma_unknown_field_ignored(
        source: Map<Seq<char>, Value>,
        key: Seq<char>,
        value: Value,
    )
        requires
            key != "channel_id"@,
            key != "deaf"@,
            key != "mute"@,
            key != "self_deaf"@,
            key != "self_mute"@,
            key != "session_id"@,
            key != "suppress"@,
            key != "token"@,
            key != "user_id"@,
        ensures
            VoiceState::from_fields(source.insert(key, value)) == VoiceState::from_fields(source),
    {
    }

    /// An optional field of a voice state that is absent is decoded as absent, or as its
    /// default. One that is present with a value of the wrong shape is not taken for absent:
    /// the record fails with that mismatch, which names the field.
    pub proof fn lemma_optional_fields(
        source: Map<Seq<char>, Value>,
        wrong: Value,
        expected: Shape,
    )
        requires
            VoiceState::from_fields(source) is Ok,
        ensures
            !source.contains_key("channel_id"@)
                ==> VoiceState::from_fields(source)->Ok_0.channel_id is None,
            fails_with(ChannelId::decoded(wrong), Error::mismatch(expected)) ==> fails_with(
                VoiceState::from_fields(source.insert("channel_id"@, wrong)),
                Error::TypeMismatch(expected, Some("channel_id")),
            ),
            !source.contains_key("token"@) ==> VoiceState::from_fields(source)->Ok_0.token is None,
            fails_with(String::decoded(wrong), Error::mismatch(expected)) ==> fails_with(
                VoiceState::from_fields(source.insert("token"@, wrong)),
                Error::TypeMismatch(expected, Some("token")),
            ),
    {
        VoiceState::lemma_field_names();
    }
}

impl Decode for VoiceState {
    open spec fn decoded(value: Value) -> Result<VoiceStateModel, Error> {
        match value {
            Value::Mapping(source) => VoiceState::from_fields(source@),
            _ => Err(Error::mismatch(Shape::Mapping)),
        }
    }

    fn decode(value: Value) -> (r: Result<VoiceState, Error>) {
        let mut source = expect_map(value)?;
        proof {
            VoiceState::lemma_field_names();
        }
        let channel_id = optional::<ChannelId>(&mut source, "channel_id")?;
        let deaf = required::<bool>(&mut source, "deaf")?;
        let mute = required::<bool>(&mut source, "mute")?;
        let self_deaf = required::<bool>(&mut source, "self_deaf")?;
        let self_mute = required::<bool>(&mut source, "self_mute")?;
        let session_id = required::<String>(&mut source, "session_id")?;
        let suppress = required::<bool>(&mut source, "suppress")?;
        let token = optional::<String>(&mut source, "token")?;
        let user_id = required::<UserId>(&mut source, "user_id")?;
        Ok(
            VoiceState {
                channel_id,
                deaf,
                mute,
                self_deaf,
                self_mute,
                session_id,
                suppress,
                token,
                user_id,
            },
        )
    }
}

impl Keyed for VoiceState {
    open spec fn key_of(model: VoiceStateModel) -> u64 {
        model.user_id.0
    }

    fn key(&self) -> (r: u64) {
        self.user_id.0
    }
}

/// A region that voice servers are offered in.
#[derive(Clone, Debug, PartialEq, Eq)]
pub struct VoiceRegion {
    /// Whether the region is a custom one, as used for events.
    pub custom: bool,
    /// Whether the region should no longer be chosen.
    pub deprecated: bool,
    /// The id of the region.
    pub id: String,
    /// The name of the region.
    pub name: String,
    /// Whether the region is the best one for the current user.
    pub optimal: bool,
    /// The name of a host in the region.
    pub sample_hostname: String,
    /// The number of a port on that host.
    pub sample_port: u64,
    /// Whether the region is for VIP guilds only.
    pub vip: bool,
}

/// The model of a voice region: what the record holds, as a mathematical value.
pub struct VoiceRegionModel {
    pub custom: bool,
    pub deprecated: bool,
    pub id: Seq<char>,
    pub name: Seq<char>,
    pub optimal: bool,
    pub sample_hostname: Seq<char>,
    pub sample_port: u64,
    pub vip: bool,
}

impl DeepView for VoiceRegion {
    type V = VoiceRegionModel;

    open spec fn deep_view(&self) -> VoiceRegionModel {
        VoiceRegionModel {
            custom: self.custom.deep_view(),
            deprecated: self.deprecated.deep_view(),
            id: self.id.deep_view(),
            name: self.name.deep_view(),
            optimal: self.optimal.deep_view(),
            sample_hostname: self.sample_hostname.deep_view(),
            sample_port: self.sample_port.deep_view(),
            vip: self.vip.deep_view(),
        }
    }
}

impl VoiceRegion {
    /// What a mapping with the contents `source` gives as a voice region: the record put
    /// together from its fields, or the error of the first field, in the order written here,
    /// that fails.
    pub open spec fn from_fields(source: Map<Seq<char>, Value>) -> Result<VoiceRegionModel, Error> {
        let custom = required_field::<bool>(source, "custom");
        let deprecated = required_field::<bool>(source, "deprecated");
        let id = required_field::<String>(source, "id");
        let name = required_field::<String>(source, "name");
        let optimal = required_field::<bool>(source, "optimal");
        let sample_hostname = required_field::<String>(source, "sample_hostname");
        let sample_port = required_field::<u64>(source, "sample_port");
        let vip = required_field::<bool>(source, "vip");
        if custom is Err {
            Err(custom->Err_0)
        } else if deprecated is Err {
            Err(deprecated->Err_0)
        } else if id is Err {
            Err(id->Err_0)
        } else if name is Err {
            Err(name->Err_0)
        } else if optimal is Err {
            Err(optimal->Err_0)
        } else if sample_hostname is Err {
            Err(sample_hostname->Err_0)
        } else if sample_port is Err {
            Err(sample_port->Err_0)
        } else if vip is Err {
            Err(vip->Err_0)
        } else {
            Ok(
                VoiceRegionModel {
                    custom: custom->Ok_0,
                    deprecated: deprecated->Ok_0,
                    id: id->Ok_0,
                    name: name->Ok_0,
                    optimal: optimal->Ok_0,
                    sample_hostname: sample_hostname->Ok_0,
                    sample_port: sample_port->Ok_0,
                    vip: vip->Ok_0,
                },
            )
        }
    }

    /// What tells the field names of a voice region apart: their lengths and, among names of
    /// one length, their letters.
    pub proof fn lemma_field_names()
        ensures
            "custom"@.len() == 6,
            "deprecated"@.len() == 10,
            "id"@.len() == 2,
            "name"@.len() == 4,
            "optimal"@.len() == 7,
            "sample_hostname"@.len() == 15,
            "sample_port"@.len() == 11,
            "vip"@.len() == 3,
    {
        reveal_strlit("custom");
        reveal_strlit("deprecated");
        reveal_strlit("id");
        reveal_strlit("name");
        reveal_strlit("optimal");
        reveal_strlit("sample_hostname");
        reveal_strlit("sample_port");
        reveal_strlit("vip");
    }

    /// A mapping that holds the required fields of a voice region and no other, each with a
    /// value that decodes, is decoded.
    pub proof fn lemma_minimal_decodes(source: Map<Seq<char>, Value>)
        requires
            source.dom() =~= set![
                "custom"@,
                "deprecated"@,
                "id"@,
                "name"@,
                "optimal"@,
                "sample_hostname"@,
                "sample_port"@,
                "vip"@,
            ],
            bool::decoded(source["custom"@]) is Ok,
            bool::decoded(source["deprecated"@]) is Ok,
            String::decoded(source["id"@]) is Ok,
            String::decoded(source["name"@]) is Ok,
            bool::decoded(source["optimal"@]) is Ok,
            String::decoded(source["sample_hostname"@]) is Ok,
            u64::decoded(source["sample_port"@]) is Ok,
            bool::decoded(source["vip"@]) is Ok,
        ensures
            VoiceRegion::from_fields(source) is Ok,
    {
        VoiceRegion::lemma_field_names();
    }

    /// Without one of its required fields, a mapping that was decoded as a voice region fails,
    /// and the error names exactly the field that is gone.
    pub proof fn lemma_missing_required_field(source: Map<Seq<char>, Value>)
        requires
            VoiceRegion::from_fields(source) is Ok,
        ensures
            fails_with(
                VoiceRegion::from_fields(source.remove("custom"@)),
                Error::MissingField("custom"),
            ),
            fails_with(
                VoiceRegion::from_fields(source.remove("deprecated"@)),
                Error::MissingField("deprecated"),
            ),
            fails_with(
                VoiceRegion::from_fields(source.remove("id"@)),
                Error::MissingField("id"),
            ),
            fails_with(
                VoiceRegion::from_fields(source.remove("name"@)),
                Error::MissingField("name"),
            ),
            fails_with(
                VoiceRegion::from_fields(source.remove("optimal"@)),
                Error::MissingField("optimal"),
            ),
            fails_with(
                VoiceRegion::from_fields(source.remove("sample_hostname"@)),
                Error::MissingField("sample_hostname"),
            ),
            fails_with(
                VoiceRegion::from_fields(source.remove("sample_port"@)),
                Error::MissingField("sample_port"),
            ),
            fails_with(
                VoiceRegion::from_fields(source.remove("vip"@)),
                Error::MissingField("vip"),
            ),
    {
        VoiceRegion::lemma_field_names();
    }

    /// A field that a voice region does not have changes nothing: it is passed over, whatever
    /// it holds.
    pub proof fn lemma_unknown_field_ignored(
        source: Map<Seq<char>, Value>,
        key: Seq<char>,
        value: Value,
    )
        requires
            key != "custom"@,
            key != "deprecated"@,
            key != "id"@,
            key != "name"@,
            key != "optimal"@,
            key != "sample_hostname"@,
            key != "sample_port"@,
            key != "vip"@,
        ensures
            VoiceRegion::from_fields(source.insert(key, value)) == VoiceRegion::from_fields(source),
    {
    }
}

impl Decode for VoiceRegion {
    open spec fn decoded(value: Value) -> Result<VoiceRegionModel, Error> {
        match value {
            Value::Mapping(source) => VoiceRegion::from_fields(source@),
            _ => Err(Error::mismatch(Shape::Mapping)),
        }
    }

    fn decode(value: Value) -> (r: Result<VoiceRegion, Error>) {
        let mut source = expect_map(value)?;
        proof {
            VoiceRegion::lemma_field_names();
        }
        let custom = required::<bool>(&mut source, "custom")?;
        let deprecated = required::<bool>(&mut source, "deprecated")?;
        let id = required::<String>(&mut source, "id")?;
        let name = required::<String>(&mut source, "name")?;
        let optimal = required::<bool>(&mut source, "optimal")?;
        let sample_hostname = required::<String>(&mut source, "sample_hostname")?;
        let sample_port = required::<u64>(&mut source, "sample_port")?;
        let vip = required::<bool>(&mut source, "vip")?;
        Ok(
            VoiceRegion {
                custom,
                deprecated,
                id,
                name,
                optimal,
                sample_hostname,
                sample_port,
                vip,
            },
        )
    }
}

/// A call in a group or in a private channel.
#[derive(Clone, Debug, PartialEq, Eq)]
pub struct Call {
    /// The channel of the call.
    pub channel_id: ChannelId,
    /// The message that announces the call.
    pub message_id: MessageId,
    /// The voice region of the call.
    pub region: String,
    /// The users who are being rung.
    pub ringing: Vec<UserId>,
    /// Whether the server of the call is out of reach.
    pub unavailable: bool,
    /// The voice states of the users in the call.
    pub voice_states: IdMap<VoiceState>,
}

/// The model of a call: what the record holds, as a mathematical value.
pub struct CallModel {
    pub channel_id: ChannelId,
    pub message_id: MessageId,
    pub region: Seq<char>,
    pub ringing: Seq<UserId>,
    pub unavailable: bool,
    pub voice_states: Map<u64, VoiceStateModel>,
}

impl DeepView for Call {
    type V = CallModel;

    open spec fn deep_view(&self) -> CallModel {
        CallModel {
            channel_id: self.channel_id.deep_view(),
            message_id: self.message_id.deep_view(),
            region: self.region.deep_view(),
            ringing: self.ringing.deep_view(),
            unavailable: self.unavailable.deep_view(),
            voice_states: self.voice_states.deep_view(),
        }
    }
}

impl Call {
    /// What a mapping with the contents `source` gives as a call: the record put together from
    /// its fields, or the error of the first field, in the order written here, that fails.
    pub open spec fn from_fields(source: Map<Seq<char>, Value>) -> Result<CallModel, Error> {
        let channel_id = required_field::<ChannelId>(source, "channel_id");
        let message_id = required_field::<MessageId>(source, "message_id");
        let region = required_field::<String>(source, "region");
        let ringing = required_field::<Vec<UserId>>(source, "ringing");
        let unavailable = required_field::<bool>(source, "unavailable");
        let voice_states = required_field::<IdMap<VoiceState>>(source, "voice_states");
        if channel_id is Err {
            Err(channel_id->Err_0)
        } else if message_id is Err {
            Err(message_id->Err_0)
        } else if region is Err {
            Err(region->Err_0)
        } else if ringing is Err {
            Err(ringing->Err_0)
        } else if unavailable is Err {
            Err(unavailable->Err_0)
        } else if voice_states is Err {
            Err(voice_states->Err_0)
        } else {
            Ok(
                CallModel {
                    channel_id: channel_id->Ok_0,
                    message_id: message_id->Ok_0,
                    region: region->Ok_0,
                    ringing: ringing->Ok_0,
                    unavailable: unavailable->Ok_0,
                    voice_states: voice_states->Ok_0,
                },
            )
        }
    }

    /// What tells the field names of a call apart: their lengths and, among names of one
    /// length, their letters.
    pub proof fn lemma_field_names()
        ensures
            "channel_id"@.len() == 10,
            "message_id"@.len() == 10,
            "region"@.len() == 6,
            "ringing"@.len() == 7,
            "unavailable"@.len() == 11,
            "voice_states"@.len() == 12,
            "channel_id"@[0] == 'c',
            "message_id"@[0] == 'm',
    {
        reveal_strlit("channel_id");
        reveal_strlit("message_id");
        reveal_strlit("region");
        reveal_strlit("ringing");
        reveal_strlit("unavailable");
        reveal_strlit("voice_states");
    }

    /// A mapping that holds the required fields of a call and no other, each with a value that
    /// decodes, is decoded.
    pub proof fn lemma_minimal_decodes(source: Map<Seq<char>, Value>)
        requires
            source.dom() =~= set![
                "channel_id"@,
                "message_id"@,
                "region"@,
                "ringing"@,
                "unavailable"@,
                "voice_states"@,
            ],
            ChannelId::decoded(source["channel_id"@]) is Ok,
            MessageId::decoded(source["message_id"@]) is Ok,
            String::decoded(source["region"@]) is Ok,
            <Vec<UserId>>::decoded(source["ringing"@]) is Ok,
            bool::decoded(source["unavailable"@]) is Ok,
            <IdMap<VoiceState>>::decoded(source["voice_states"@]) is Ok,
        ensures
            Call::from_fields(source) is Ok,
    {
        Call::lemma_field_names();
    }

    /// Without one of its required fields, a mapping that was decoded as a call fails, and the
    /// error names exactly the field that is gone.
    pub proof fn lemma_missing_required_field(source: Map<Seq<char>, Value>)
        requires
            Call::from_fields(source) is Ok,
        ensures
            fails_with(
                Call::from_fields(source.remove("channel_id"@)),
                Error::MissingField("channel_id"),
            ),
            fails_with(
                Call::from_fields(source.remove("message_id"@)),
                Error::MissingField("message_id"),
            ),
            fails_with(
                Call::from_fields(source.remove("region"@)),
                Error::MissingField("region"),
            ),
            fails_with(
                Call::from_fields(source.remove("ringing"@)),
                Error::MissingField("ringing"),
            ),
            fails_with(
                Call::from_fields(source.remove("unavailable"@)),
                Error::MissingField("unavailable"),
            ),
            fails_with(
                Call::from_fields(source.remove("voice_states"@)),
                Error::MissingField("voice_states"),
            ),
    {
        Call::lemma_field_names();
    }

    /// A field that a call does not have changes nothing: it is passed over, whatever it holds.
    pub proof fn lemma_unknown_field_ignored(
        source: Map<Seq<char>, Value>,
        key: Seq<char>,
        value: Value,
    )
        requires
            key != "channel_id"@,
            key != "message_id"@,
            key != "region"@,
            key != "ringing"@,
            key != "unavailable"@,
            key != "voice_states"@,
        ensures
            Call::from_fields(source.insert(key, value)) == Call::from_fields(source),
    {
    }
}

impl Decode for Call {
    open spec fn decoded(value: Value) -> Result<CallModel, Error> {
        match value {
            Value::Mapping(source) => Call::from_fields(source@),
            _ => Err(Error::mismatch(Shape::Mapping)),
        }
    }

    fn decode(value: Value) -> (r: Result<Call, Error>) {
        let mut source = expect_map(value)?;
        proof {
            Call::lemma_field_names();
        }
        let channel_id = required::<ChannelId>(&mut source, "channel_id")?;
        let message_id = required::<MessageId>(&mut source, "message_id")?;
        let region = required::<String>(&mut source, "region")?;
        let ringing = required::<Vec<UserId>>(&mut source, "ringing")?;
        let unavailable = required::<bool>(&mut source, "unavailable")?;
        let voice_states = required::<IdMap<VoiceState>>(&mut source, "voice_states")?;
        Ok(
            Call {
                channel_id,
                message_id,
                region,
                ringing,
                unavailable,
                voice_states,
            },
        )
    }
}

} // verus!
