//! Webhooks.

use crate::access::expect_map;
use crate::decode::Decode;
use crate::decode::fails_with;
use crate::decode::optional;
use crate::decode::optional_field;
use crate::decode::required;
use crate::decode::required_field;
use crate::error::Error;
use crate::error::Shape;
use crate::ident::ChannelId;
use crate::ident::GuildId;
use crate::ident::WebhookId;
use crate::records::user::User;
use crate::records::user::UserModel;
use crate::value::Value;
use vstd::prelude::*;

verus! {

/// A webhook: a way to post messages to a channel without a user.
#[derive(Clone, Debug, PartialEq, Eq)]
pub struct Webhook {
    /// The id of the webhook.
    pub id: WebhookId,
    /// The hash of the avatar that posts get, if one is set.
    pub avatar: Option<String>,
    /// The channel that the webhook posts to.
    pub channel_id: ChannelId,
    /// The guild of that channel, if it is told.
    pub guild_id: Option<GuildId>,
    /// The name that posts get, if one is set.
    pub name: Option<String>,
    /// The token of the webhook.
    pub token: String,
    /// The user who made the webhook, if that is told.
    pub user: Option<User>,
}

/// The model of a webhook: what the record holds, as a mathematical value.
pub struct WebhookModel {
    pub id: WebhookId,
    pub avatar: Option<Seq<char>>,
    pub channel_id: ChannelId,
    pub guild_id: Option<GuildId>,
    pub name: Option<Seq<char>>,
    pub token: Seq<char>,
    pub user: Option<UserModel>,
}

impl DeepView for Webhook {
    type V = WebhookModel;

    open spec fn deep_view(&self) -> WebhookModel {
        WebhookModel {
            id: self.id.deep_view(),
            avatar: self.avatar.deep_view(),
            channel_id: self.channel_id.deep_view(),
            guild_id: self.guild_id.deep_view(),
            name: self.name.deep_view(),
            token: self.token.deep_view(),
            user: self.user.deep_view(),
        }
    }
}

impl Webhook {
    /// What a mapping with the contents `source` gives as a webhook: the record put together
    /// from its fields, or the error of the first field, in the order written here, that fails.
    pub open spec fn from_fields(source: Map<Seq<char>, Value>) -> Result<WebhookModel, Error> {
        let id = required_field::<WebhookId>(source, "id");
        let avatar = optional_field::<String>(source, "avatar");
        let channel_id = required_field::<ChannelId>(source, "channel_id");
        let guild_id = optional_field::<GuildId>(source, "guild_id");
        let name = optional_field::<String>(source, "name");
        let token = required_field::<String>(source, "token");
        let user = optional_field::<User>(source, "user");
        if id is Err {
            Err(id->Err_0)
        } else if avatar is Err {
            Err(avatar->Err_0)
        } else if channel_id is Err {
            Err(channel_id->Err_0)
        } else if guild_id is Err {
            Err(guild_id->Err_0)
        } else if name is Err {
            Err(name->Err_0)
        } else if token is Err {
            Err(token->Err_0)
        } else if user is Err {
            Err(user->Err_0)
        } else {
            Ok(
                WebhookModel {
                    id: id->Ok_0,
                    avatar: avatar->Ok_0,
                    channel_id: channel_id->Ok_0,
                    guild_id: guild_id->Ok_0,
                    name: name->Ok_0,
                    token: token->Ok_0,
                    user: user->Ok_0,
                },
            )
        }
    }

    /// What tells the field names of a webhook apart: their lengths and, among names of one
    /// length, their letters.
    pub proof fn lemma_field_names()
        ensures
            "id"@.len() == 2,
            "avatar"@.len() == 6,
            "channel_id"@.len() == 10,
            "guild_id"@.len() == 8,
            "name"@.len() == 4,
            "token"@.len() == 5,
            "user"@.len() == 4,
            "name"@[0] == 'n',
            "user"@[0] == 'u',
    {
        reveal_strlit("id");
        reveal_strlit("avatar");
        reveal_strlit("channel_id");
        reveal_strlit("guild_id");
        reveal_strlit("name");
        reveal_strlit("token");
        reveal_strlit("user");
    }

    /// A mapping that holds the required fields of a webhook and no other, each with a value
    /// that decodes, is decoded.
    pub proof fn lemma_minimal_decodes(source: Map<Seq<char>, Value>)
        requires
            source.dom() =~= set!["id"@, "channel_id"@, "token"@],
            WebhookId::decoded(source["id"@]) is Ok,
            ChannelId::decoded(source["channel_id"@]) is Ok,
            String::decoded(source["token"@]) is Ok,
        ensures
            Webhook::from_fields(source) is Ok,
    {
        Webhook::lemma_field_names();
    }

    /// Without one of its required fields, a mapping that was decoded as a webhook fails, and
    /// the error names exactly the field that is gone.
    pub proof fn lemma_missing_required_field(source: Map<Seq<char>, Value>)
        requires
            Webhook::from_fields(source) is Ok,
        ensures
            fails_with(
                Webhook::from_fields(source.remove("id"@)),
                Error::MissingField("id"),
            ),
            fails_with(
                Webhook::from_fields(source.remove("channel_id"@)),
                Error::MissingField("channel_id"),
            ),
            fails_with(
                Webhook::from_fields(source.remove("token"@)),
                Error::MissingField("token"),
            ),
    {
        Webhook::lemma_field_names();
    }

    /// A field that a webhook does not have changes nothing: it is passed over, whatever it
    /// holds.
    pub proof fn lemma_unknown_field_ignored(
        source: Map<Seq<char>, Value>,
        key: Seq<char>,
        value: Value,
    )
        requires
            key != "id"@,
            key != "avatar"@,
            key != "channel_id"@,
            key != "guild_id"@,
            key != "name"@,
            key != "token"@,
            key != "user"@,
        ensures
            Webhook::from_fields(source.insert(key, value)) == Webhook::from_fields(source),
    {
    }

    /// An optional field of a webhook that is absent is decoded as absent, or as its default.
    /// One that is present with a value of the wrong shape is not taken for absent: the record
    /// fails with that mismatch, which names the field.
    pub proof fn lemma_optional_fields(
        source: Map<Seq<char>, Value>,
        wrong: Value,
        expected: Shape,
    )
        requires
            Webhook::from_fields(source) is Ok,
        ensures
            !source.contains_key("avatar"@) ==> Webhook::from_fields(source)->Ok_0.avatar is None,
            fails_with(String::decoded(wrong), Error::mismatch(expected)) ==> fails_with(
                Webhook::from_fields(source.insert("avatar"@, wrong)),
                Error::TypeMismatch(expected, Some("avatar")),
            ),
            !source.contains_key("guild_id"@)
                ==> Webhook::from_fields(source)->Ok_0.guild_id is None,
            fails_with(GuildId::decoded(wrong), Error::mismatch(expected)) ==> fails_with(
                Webhook::from_fields(source.insert("guild_id"@, wrong)),
                Error::TypeMismatch(expected, Some("guild_id")),
            ),
            !source.contains_key("name"@) ==> Webhook::from_fields(source)->Ok_0.name is None,
            fails_with(String::decoded(wrong), Error::mismatch(expected)) ==> fails_with(
                Webhook::from_fields(source.insert("name"@, wrong)),
                Error::TypeMismatch(expected, Some("name")),
            ),
            !source.contains_key("user"@) ==> Webhook::from_fields(source)->Ok_0.user is None,
            fails_with(User::decoded(wrong), Error::mismatch(expected)) ==> fails_with(
                Webhook::from_fields(source.insert("user"@, wrong)),
                Error::TypeMismatch(expected, Some("user")),
            ),
    {
        Webhook::lemma_field_names();
    }
}

impl Decode for Webhook {
    open spec fn decoded(value: Value) -> Result<WebhookModel, Error> {
        match value {
            Value::Mapping(source) => Webhook::from_fields(source@),
            _ => Err(Error::mismatch(Shape::Mapping)),
        }
    }

    fn decode(value: Value) -> (r: Result<Webhook, Error>) {
        let mut source = expect_map(value)?;
        proof {
            Webhook::lemma_field_names();
        }
        let id = required::<WebhookId>(&mut source, "id")?;
        let avatar = optional::<String>(&mut source, "avatar")?;
        let channel_id = required::<ChannelId>(&mut source, "channel_id")?;
        let guild_id = optional::<GuildId>(&mut source, "guild_id")?;
        let name = optional::<String>(&mut source, "name")?;
        let token = required::<String>(&mut source, "token")?;
        let user = optional::<User>(&mut source, "user")?;
        Ok(
            Webhook {
                id,
                avatar,
                channel_id,
                guild_id,
                name,
                token,
                user,
            },
        )
    }
}

} // verus!
