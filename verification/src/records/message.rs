//! Messages and what is attached to them.

use crate::access::expect_map;
use crate::codec::Numbered;
use crate::decode::Decode;
use crate::decode::fails_with;
use crate::decode::no_items;
use crate::decode::optional;
use crate::decode::optional_field;
use crate::decode::required;
use crate::decode::required_field;
use crate::error::Error;
use crate::error::Shape;
use crate::ident::ChannelId;
use crate::ident::MessageId;
use crate::ident::RoleId;
use crate::ident::UserId;
use crate::ident::WebhookId;
use crate::kinds::MessageType;
use crate::records::embed::Embed;
use crate::records::embed::EmbedModel;
use crate::records::reaction::ReactionType;
use crate::records::reaction::ReactionTypeModel;
use crate::records::user::User;
use crate::records::user::UserModel;
use crate::value::Value;
use vstd::prelude::*;

verus! {

/// A file that was uploaded with a message.
#[derive(Clone, Debug, PartialEq, Eq)]
pub struct Attachment {
    /// The id of the attachment.
    pub id: String,
    /// The name of the file.
    pub filename: String,
    /// The height in pixels, where the file is an image.
    pub height: Option<u64>,
    /// The URL of the file behind the proxy.
    pub proxy_url: String,
    /// The size of the file in bytes.
    pub size: u64,
    /// The URL of the file.
    pub url: String,
    /// The width in pixels, where the file is an image.
    pub width: Option<u64>,
}

/// The model of an attachment: what the record holds, as a mathematical value.
pub struct AttachmentModel {
    pub id: Seq<char>,
    pub filename: Seq<char>,
    pub height: Option<u64>,
    pub proxy_url: Seq<char>,
    pub size: u64,
    pub url: Seq<char>,
    pub width: Option<u64>,
}

impl DeepView for Attachment {
    type V = AttachmentModel;

    open spec fn deep_view(&self) -> AttachmentModel {
        AttachmentModel {
            id: self.id.deep_view(),
            filename: self.filename.deep_view(),
            height: self.height.deep_view(),
            proxy_url: self.proxy_url.deep_view(),
            size: self.size.deep_view(),
            url: self.url.deep_view(),
            width: self.width.deep_view(),
        }
    }
}

impl Attachment {
    /// What a mapping with the contents `source` gives as an attachment: the record put
    /// together from its fields, or the error of the first field, in the order written here,
    /// that fails.
    pub open spec fn from_fields(source: Map<Seq<char>, Value>) -> Result<AttachmentModel, Error> {
        let id = required_field::<String>(source, "id");
        let filename = required_field::<String>(source, "filename");
        let height = optional_field::<u64>(source, "height");
        let proxy_url = required_field::<String>(source, "proxy_url");
        let size = required_field::<u64>(source, "size");
        let url = required_field::<String>(source, "url");
        let width = optional_field::<u64>(source, "width");
        if id is Err {
            Err(id->Err_0)
        } else if filename is Err {
            Err(filename->Err_0)
        } else if height is Err {
            Err(height->Err_0)
        } else if proxy_url is Err {
            Err(proxy_url->Err_0)
        } else if size is Err {
            Err(size->Err_0)
        } else if url is Err {
            Err(url->Err_0)
        } else if width is Err {
            Err(width->Err_0)
        } else {
            Ok(
                AttachmentModel {
                    id: id->Ok_0,
                    filename: filename->Ok_0,
                    height: height->Ok_0,
                    proxy_url: proxy_url->Ok_0,
                    size: size->Ok_0,
                    url: url->Ok_0,
                    width: width->Ok_0,
                },
            )
        }
    }

    /// What tells the field names of an attachment apart: their lengths and, among names of one
    /// length, their letters.
    pub proof fn lemma_field_names()
        ensures
            "id"@.len() == 2,
            "filename"@.len() == 8,
            "height"@.len() == 6,
            "proxy_url"@.len() == 9,
            "size"@.len() == 4,
            "url"@.len() == 3,
            "width"@.len() == 5,
    {
        reveal_strlit("id");
        reveal_strlit("filename");
        reveal_strlit("height");
        reveal_strlit("proxy_url");
        reveal_strlit("size");
        reveal_strlit("url");
        reveal_strlit("width");
    }

    /// A mapping that holds the required fields of an attachment and no other, each with a
    /// value that decodes, is decoded.
    pub proof fn lemma_minimal_decodes(source: Map<Seq<char>, Value>)
        requires
            source.dom() =~= set!["id"@, "filename"@, "proxy_url"@, "size"@, "url"@],
            String::decoded(source["id"@]) is Ok,
            String::decoded(source["filename"@]) is Ok,
            String::decoded(source["proxy_url"@]) is Ok,
            u64::decoded(source["size"@]) is Ok,
            String::decoded(source["url"@]) is Ok,
        ensures
            Attachment::from_fields(source) is Ok,
    {
        Attachment::lemma_field_names();
    }

    /// Without one of its required fields, a mapping that was decoded as an attachment fails,
    /// and the error names exactly the field that is gone.
    pub proof fn lemma_missing_required_field(source: Map<Seq<char>, Value>)
        requires
            Attachment::from_fields(source) is Ok,
        ensures
            fails_with(
                Attachment::from_fields(source.remove("id"@)),
                Error::MissingField("id"),
            ),
            fails_with(
                Attachment::from_fields(source.remove("filename"@)),
                Error::MissingField("filename"),
            ),
            fails_with(
                Attachment::from_fields(source.remove("proxy_url"@)),
                Error::MissingField("proxy_url"),
            ),
            fails_with(
                Attachment::from_fields(source.remove("size"@)),
                Error::MissingField("size"),
            ),
            fails_with(
                Attachment::from_fields(source.remove("url"@)),
                Error::MissingField("url"),
            ),
    {
        Attachment::lemma_field_names();
    }

    /// A field that an attachment does not have changes nothing: it is passed over, whatever it
    /// holds.
    pub proof fn lemma_unknown_field_ignored(
        source: Map<Seq<char>, Value>,
        key: Seq<char>,
        value: Value,
    )
        requires
            key != "id"@,
            key != "filename"@,
            key != "height"@,
            key != "proxy_url"@,
            key != "size"@,
            key != "url"@,
            key != "width"@,
        ensures
            Attachment::from_fields(source.insert(key, value)) == Attachment::from_fields(source),
    {
    }

    /// An optional field of an attachment that is absent is decoded as absent, or as its
    /// default. One that is present with a value of the wrong shape is not taken for absent:
    /// the record fails with that mismatch, which names the field.
    pub proof fn lemma_optional_fields(
        source: Map<Seq<char>, Value>,
        wrong: Value,
        expected: Shape,
    )
        requires
            Attachment::from_fields(source) is Ok,
        ensures
            !source.contains_key("height"@)
                ==> Attachment::from_fields(source)->Ok_0.height is None,
            fails_with(u64::decoded(wrong), Error::mismatch(expected)) ==> fails_with(
                Attachment::from_fields(source.insert("height"@, wrong)),
                Error::TypeMismatch(expected, Some("height")),
            ),
            !source.contains_key("width"@) ==> Attachment::from_fields(source)->Ok_0.width is None,
            fails_with(u64::decoded(wrong), Error::mismatch(expected)) ==> fails_with(
                Attachment::from_fields(source.insert("width"@, wrong)),
                Error::TypeMismatch(expected, Some("width")),
            ),
    {
        Attachment::lemma_field_names();
    }
}

impl Decode for Attachment {
    open spec fn decoded(value: Value) -> Result<AttachmentModel, Error> {
        match value {
            Value::Mapping(source) => Attachment::from_fields(source@),
            _ => Err(Error::mismatch(Shape::Mapping)),
        }
    }

    fn decode(value: Value) -> (r: Result<Attachment, Error>) {
        let mut source = expect_map(value)?;
        proof {
            Attachment::lemma_field_names();
        }
        let id = required::<String>(&mut source, "id")?;
        let filename = required::<String>(&mut source, "filename")?;
        let height = optional::<u64>(&mut source, "height")?;
        let proxy_url = required::<String>(&mut source, "proxy_url")?;
        let size = required::<u64>(&mut source, "size")?;
        let url = required::<String>(&mut source, "url")?;
        let width = optional::<u64>(&mut source, "width")?;
        Ok(
            Attachment {
                id,
                filename,
                height,
                proxy_url,
                size,
                url,
                width,
            },
        )
    }
}

/// The reactions to a message with one emoji, counted.
#[derive(Clone, Debug, PartialEq, Eq)]
pub struct MessageReaction {
    /// How many such reactions the message has.
    pub count: u64,
    /// Whether the current user is among those who reacted.
    pub me: bool,
    /// The emoji. On the wire the field is called `emoji`.
    pub reaction_type: ReactionType,
}

/// The model of a message reaction: what the record holds, as a mathematical value.
pub struct MessageReactionModel {
    pub count: u64,
    pub me: bool,
    pub reaction_type: ReactionTypeModel,
}

impl DeepView for MessageReaction {
    type V = MessageReactionModel;

    open spec fn deep_view(&self) -> MessageReactionModel {
        MessageReactionModel {
            count: self.count.deep_view(),
            me: self.me.deep_view(),
            reaction_type: self.reaction_type.deep_view(),
        }
    }
}

impl MessageReaction {
    /// What a mapping with the contents `source` gives as a message reaction: the record put
    /// together from its fields, or the error of the first field, in the order written here,
    /// that fails.
    pub open spec fn from_fields(source: Map<Seq<char>, Value>) -> Result<
        MessageReactionModel,
        Error,
    > {
        let count = required_field::<u64>(source, "count");
        let me = required_field::<bool>(source, "me");
        let reaction_type = required_field::<ReactionType>(source, "emoji");
        if count is Err {
            Err(count->Err_0)
        } else if me is Err {
            Err(me->Err_0)
        } else if reaction_type is Err {
            Err(reaction_type->Err_0)
        } else {
            Ok(
                MessageReactionModel {
                    count: count->Ok_0,
                    me: me->Ok_0,
                    reaction_type: reaction_type->Ok_0,
                },
            )
        }
    }

    /// What tells the field names of a message reaction apart: their lengths and, among names
    /// of one length, their letters.
    pub proof fn lemma_field_names()
        ensures
            "count"@.len() == 5,
            "me"@.len() == 2,
            "emoji"@.len() == 5,
            "count"@[0] == 'c',
            "emoji"@[0] == 'e',
    {
        reveal_strlit("count");
        reveal_strlit("me");
        reveal_strlit("emoji");
    }

    /// A mapping that holds the required fields of a message reaction and no other, each with a
    /// value that decodes, is decoded.
    pub proof fn lemma_minimal_decodes(source: Map<Seq<char>, Value>)
        requires
            source.dom() =~= set!["count"@, "me"@, "emoji"@],
            u64::decoded(source["count"@]) is Ok,
            bool::decoded(source["me"@]) is Ok,
            ReactionType::decoded(source["emoji"@]) is Ok,
        ensures
            MessageReaction::from_fields(source) is Ok,
    {
        MessageReaction::lemma_field_names();
    }

    /// Without one of its required fields, a mapping that was decoded as a message reaction
    /// fails, and the error names exactly the field that is gone.
    pub proof fn lemma_missing_required_field(source: Map<Seq<char>, Value>)
        requires
            MessageReaction::from_fields(source) is Ok,
        ensures
            fails_with(
                MessageReaction::from_fields(source.remove("count"@)),
                Error::MissingField("count"),
            ),
            fails_with(
                MessageReaction::from_fields(source.remove("me"@)),
                Error::MissingField("me"),
            ),
            fails_with(
                MessageReaction::from_fields(source.remove("emoji"@)),
                Error::MissingField("emoji"),
            ),
    {
        MessageReaction::lemma_field_names();
    }

    /// A field that a message reaction does not have changes nothing: it is passed over,
    /// whatever it holds.
    pub proof fn lemma_unknown_field_ignored(
        source: Map<Seq<char>, Value>,
        key: Seq<char>,
        value: Value,
    )
        requires
            key != "count"@,
            key != "me"@,
            key != "emoji"@,
        ensures
            MessageReaction::from_fields(source.insert(key, value))
                == MessageReaction::from_fields(source),
    {
    }
}

impl Decode for MessageReaction {
    open spec fn decoded(value: Value) -> Result<MessageReactionModel, Error> {
        match value {
            Value::Mapping(source) => MessageReaction::from_fields(source@),
            _ => Err(Error::mismatch(Shape::Mapping)),
        }
    }

    fn decode(value: Value) -> (r: Result<MessageReaction, Error>) {
        let mut source = expect_map(value)?;
        proof {
            MessageReaction::lemma_field_names();
        }
        let count = required::<u64>(&mut source, "count")?;
        let me = required::<bool>(&mut source, "me")?;
        let reaction_type = required::<ReactionType>(&mut source, "emoji")?;
        Ok(
            MessageReaction {
                count,
                me,
                reaction_type,
            },
        )
    }
}

/// One reaction of a user to a message.
#[derive(Clone, Debug, PartialEq, Eq)]
pub struct Reaction {
    /// The channel of the message.
    pub channel_id: ChannelId,
    /// The emoji.
    pub emoji: ReactionType,
    /// The message.
    pub message_id: MessageId,
    /// The user who reacted.
    pub user_id: UserId,
}

/// The model of a reaction: what the record holds, as a mathematical value.
pub struct ReactionModel {
    pub channel_id: ChannelId,
    pub emoji: ReactionTypeModel,
    pub message_id: MessageId,
    pub user_id: UserId,
}

impl DeepView for Reaction {
    type V = ReactionModel;

    open spec fn deep_view(&self) -> ReactionModel {
        ReactionModel {
            channel_id: self.channel_id.deep_view(),
            emoji: self.emoji.deep_view(),
            message_id: self.message_id.deep_view(),
            user_id: self.user_id.deep_view(),
        }
    }
}

impl Reaction {
    /// What a mapping with the contents `source` gives as a reaction: the record put together
    /// from its fields, or the error of the first field, in the order written here, that fails.
    pub open spec fn from_fields(source: Map<Seq<char>, Value>) -> Result<ReactionModel, Error> {
        let channel_id = required_field::<ChannelId>(source, "channel_id");
        let emoji = required_field::<ReactionType>(source, "emoji");
        let message_id = required_field::<MessageId>(source, "message_id");
        let user_id = required_field::<UserId>(source, "user_id");
        if channel_id is Err {
            Err(channel_id->Err_0)
        } else if emoji is Err {
            Err(emoji->Err_0)
        } else if message_id is Err {
            Err(message_id->Err_0)
        } else if user_id is Err {
            Err(user_id->Err_0)
        } else {
            Ok(
                ReactionModel {
                    channel_id: channel_id->Ok_0,
                    emoji: emoji->Ok_0,
                    message_id: message_id->Ok_0,
                    user_id: user_id->Ok_0,
                },
            )
        }
    }

    /// What tells the field names of a reaction apart: their lengths and, among names of one
    /// length, their letters.
    pub proof fn lemma_field_names()
        ensures
            "channel_id"@.len() == 10,
            "emoji"@.len() == 5,
            "message_id"@.len() == 10,
            "user_id"@.len() == 7,
            "channel_id"@[0] == 'c',
            "message_id"@[0] == 'm',
    {
        reveal_strlit("channel_id");
        reveal_strlit("emoji");
        reveal_strlit("message_id");
        reveal_strlit("user_id");
    }

    /// A mapping that holds the required fields of a reaction and no other, each with a value
    /// that decodes, is decoded.
    pub proof fn lemma_minimal_decodes(source: Map<Seq<char>, Value>)
        requires
            source.dom() =~= set!["channel_id"@, "emoji"@, "message_id"@, "user_id"@],
            ChannelId::decoded(source["channel_id"@]) is Ok,
            ReactionType::decoded(source["emoji"@]) is Ok,
            MessageId::decoded(source["message_id"@]) is Ok,
            UserId::decoded(source["user_id"@]) is Ok,
        ensures
            Reaction::from_fields(source) is Ok,
    {
        Reaction::lemma_field_names();
    }

    /// Without one of its required fields, a mapping that was decoded as a reaction fails, and
    /// the error names exactly the field that is gone.
    pub proof fn lemma_missing_required_field(source: Map<Seq<char>, Value>)
        requires
            Reaction::from_fields(source) is Ok,
        ensures
            fails_with(
                Reaction::from_fields(source.remove("channel_id"@)),
                Error::MissingField("channel_id"),
            ),
            fails_with(
                Reaction::from_fields(source.remove("emoji"@)),
                Error::MissingField("emoji"),
            ),
            fails_with(
                Reaction::from_fields(source.remove("message_id"@)),
                Error::MissingField("message_id"),
            ),
            fails_with(
                Reaction::from_fields(source.remove("user_id"@)),
                Error::MissingField("user_id"),
            ),
    {
        Reaction::lemma_field_names();
    }

    /// A field that a reaction does not have changes nothing: it is passed over, whatever it
    /// holds.
    pub proof fn lemma_unknown_field_ignored(
        source: Map<Seq<char>, Value>,
        key: Seq<char>,
        value: Value,
    )
        requires
            key != "channel_id"@,
            key != "emoji"@,
            key != "message_id"@,
            key != "user_id"@,
        ensures
            Reaction::from_fields(source.insert(key, value)) == Reaction::from_fields(source),
    {
    }
}

impl Decode for Reaction {
    open spec fn decoded(value: Value) -> Result<ReactionModel, Error> {
        match value {
            Value::Mapping(source) => Reaction::from_fields(source@),
            _ => Err(Error::mismatch(Shape::Mapping)),
        }
    }

    fn decode(value: Value) -> (r: Result<Reaction, Error>) {
        let mut source = expect_map(value)?;
        proof {
            Reaction::lemma_field_names();
        }
        let channel_id = required::<ChannelId>(&mut source, "channel_id")?;
        let emoji = required::<ReactionType>(&mut source, "emoji")?;
        let message_id = required::<MessageId>(&mut source, "message_id")?;
        let user_id = required::<UserId>(&mut source, "user_id")?;
        Ok(
            Reaction {
                channel_id,
                emoji,
                message_id,
                user_id,
            },
        )
    }
}

/// A message in a text channel of a guild, in a group, or in a private channel.
#[derive(Clone, Debug, PartialEq, Eq)]
pub struct Message {
    /// The id of the message.
    pub id: MessageId,
    /// The files that were uploaded with the message.
    pub attachments: Vec<Attachment>,
    /// The user who sent the message.
    pub author: User,
    /// The channel that the message was sent to.
    pub channel_id: ChannelId,
    /// The text of the message.
    pub content: String,
    /// When the message was last edited, if it was.
    pub edited_timestamp: Option<String>,
    /// The embeds of the message.
    pub embeds: Vec<Embed>,
    /// Whether the message is the one that a search found, rather than one around it. Where the
    /// field is absent, this is `false`.
    pub hit: bool,
    /// Whether a user or the system wrote the message. On the wire the field is called `type`.
    pub kind: MessageType,
    /// Whether the message mentions everyone.
    pub mention_everyone: bool,
    /// The roles that the message mentions.
    pub mention_roles: Vec<RoleId>,
    /// The users that the message mentions.
    pub mentions: Vec<User>,
    /// A value that the sender chose to tell its messages apart.
    pub nonce: Option<String>,
    /// Whether the message is pinned.
    pub pinned: bool,
    /// The reactions to the message. Where the field is absent, there are none.
    pub reactions: Vec<MessageReaction>,
    /// When the message was sent.
    pub timestamp: String,
    /// Whether the message is read out.
    pub tts: bool,
    /// The webhook that sent the message, if one did.
    pub webhook_id: Option<WebhookId>,
}

/// The model of a message: what the record holds, as a mathematical value.
pub struct MessageModel {
    pub id: MessageId,
    pub attachments: Seq<AttachmentModel>,
    pub author: UserModel,
    pub channel_id: ChannelId,
    pub content: Seq<char>,
    pub edited_timestamp: Option<Seq<char>>,
    pub embeds: Seq<EmbedModel>,
    pub hit: bool,
    pub kind: MessageType,
    pub mention_everyone: bool,
    pub mention_roles: Seq<RoleId>,
    pub mentions: Seq<UserModel>,
    pub nonce: Option<Seq<char>>,
    pub pinned: bool,
    pub reactions: Seq<MessageReactionModel>,
    pub timestamp: Seq<char>,
    pub tts: bool,
    pub webhook_id: Option<WebhookId>,
}

impl DeepView for Message {
    type V = MessageModel;

    open spec fn deep_view(&self) -> MessageModel {
        MessageModel {
            id: self.id.deep_view(),
            attachments: self.attachments.deep_view(),
            author: self.author.deep_view(),
            channel_id: self.channel_id.deep_view(),
            content: self.content.deep_view(),
            edited_timestamp: self.edited_timestamp.deep_view(),
            embeds: self.embeds.deep_view(),
            hit: self.hit.deep_view(),
            kind: self.kind.deep_view(),
            mention_everyone: self.mention_everyone.deep_view(),
            mention_roles: self.mention_roles.deep_view(),
            mentions: self.mentions.deep_view(),
            nonce: self.nonce.deep_view(),
            pinned: self.pinned.deep_view(),
            reactions: self.reactions.deep_view(),
            timestamp: self.timestamp.deep_view(),
            tts: self.tts.deep_view(),
            webhook_id: self.webhook_id.deep_view(),
        }
    }
}

impl Message {
    /// What a mapping with the contents `source` gives as a message: the record put together
    /// from its fields, or the error of the first field, in the order written here, that fails.
    pub open spec fn from_fields(source: Map<Seq<char>, Value>) -> Result<MessageModel, Error> {
        let id = required_field::<MessageId>(source, "id");
        let attachments = required_field::<Vec<Attachment>>(source, "attachments");
        let author = required_field::<User>(source, "author");
        let channel_id = required_field::<ChannelId>(source, "channel_id");
        let content = required_field::<String>(source, "content");
        let edited_timestamp = optional_field::<String>(source, "edited_timestamp");
        let embeds = required_field::<Vec<Embed>>(source, "embeds");
        let hit = optional_field::<bool>(source, "hit");
        let kind = required_field::<Numbered<MessageType>>(source, "type");
        let mention_everyone = required_field::<bool>(source, "mention_everyone");
        let mention_roles = required_field::<Vec<RoleId>>(source, "mention_roles");
        let mentions = required_field::<Vec<User>>(source, "mentions");
        let nonce = optional_field::<String>(source, "nonce");
        let pinned = required_field::<bool>(source, "pinned");
        let reactions = optional_field::<Vec<MessageReaction>>(source, "reactions");
        let timestamp = required_field::<String>(source, "timestamp");
        let tts = required_field::<bool>(source, "tts");
        let webhook_id = optional_field::<WebhookId>(source, "webhook_id");
        if id is Err {
            Err(id->Err_0)
        } else if attachments is Err {
            Err(attachments->Err_0)
        } else if author is Err {
            Err(author->Err_0)
        } else if channel_id is Err {
            Err(channel_id->Err_0)
        } else if content is Err {
            Err(content->Err_0)
        } else if edited_timestamp is Err {
            Err(edited_timestamp->Err_0)
        } else if embeds is Err {
            Err(embeds->Err_0)
        } else if hit is Err {
            Err(hit->Err_0)
        } else if kind is Err {
            Err(kind->Err_0)
        } else if mention_everyone is Err {
            Err(mention_everyone->Err_0)
        } else if mention_roles is Err {
            Err(mention_roles->Err_0)
        } else if mentions is Err {
            Err(mentions->Err_0)
        } else if nonce is Err {
            Err(nonce->Err_0)
        } else if pinned is Err {
            Err(pinned->Err_0)
        } else if reactions is Err {
            Err(reactions->Err_0)
        } else if timestamp is Err {
            Err(timestamp->Err_0)
        } else if tts is Err {
            Err(tts->Err_0)
        } else if webhook_id is Err {
            Err(webhook_id->Err_0)
        } else {
            Ok(
                MessageModel {
                    id: id->Ok_0,
                    attachments: attachments->Ok_0,
                    author: author->Ok_0,
                    channel_id: channel_id->Ok_0,
                    content: content->Ok_0,
                    edited_timestamp: edited_timestamp->Ok_0,
                    embeds: embeds->Ok_0,
                    hit: match hit->Ok_0 {
                        Some(given) => given,
                        None => false,
                    },
                    kind: kind->Ok_0,
                    mention_everyone: mention_everyone->Ok_0,
                    mention_roles: mention_roles->Ok_0,
                    mentions: mentions->Ok_0,
                    nonce: nonce->Ok_0,
                    pinned: pinned->Ok_0,
                    reactions: match reactions->Ok_0 {
                        Some(given) => given,
                        None => Seq::empty(),
                    },
                    timestamp: timestamp->Ok_0,
                    tts: tts->Ok_0,
                    webhook_id: webhook_id->Ok_0,
                },
            )
        }
    }

    /// What tells the field names of a message apart: their lengths and, among names of one
    /// length, their letters.
    pub proof fn lemma_field_names()
        ensures
            "id"@.len() == 2,
            "attachments"@.len() == 11,
            "author"@.len() == 6,
            "channel_id"@.len() == 10,
            "content"@.len() == 7,
            "edited_timestamp"@.len() == 16,
            "embeds"@.len() == 6,
            "hit"@.len() == 3,
            "type"@.len() == 4,
            "mention_everyone"@.len() == 16,
            "mention_roles"@.len() == 13,
            "mentions"@.len() == 8,
            "nonce"@.len() == 5,
            "pinned"@.len() == 6,
            "reactions"@.len() == 9,
            "timestamp"@.len() == 9,
            "tts"@.len() == 3,
            "webhook_id"@.len() == 10,
            "hit"@[0] == 'h',
            "tts"@[0] == 't',
            "author"@[0] == 'a',
            "embeds"@[0] == 'e',
            "pinned"@[0] == 'p',
            "reactions"@[0] == 'r',
            "timestamp"@[0] == 't',
            "channel_id"@[0] == 'c',
            "webhook_id"@[0] == 'w',
            "edited_timestamp"@[0] == 'e',
            "mention_everyone"@[0] == 'm',
    {
        reveal_strlit("id");
        reveal_strlit("attachments");
        reveal_strlit("author");
        reveal_strlit("channel_id");
        reveal_strlit("content");
        reveal_strlit("edited_timestamp");
        reveal_strlit("embeds");
        reveal_strlit("hit");
        reveal_strlit("type");
        reveal_strlit("mention_everyone");
        reveal_strlit("mention_roles");
        reveal_strlit("mentions");
        reveal_strlit("nonce");
        reveal_strlit("pinned");
        reveal_strlit("reactions");
        reveal_strlit("timestamp");
        reveal_strlit("tts");
        reveal_strlit("webhook_id");
    }

    /// A mapping that holds the required fields of a message and no other, each with a value
    /// that decodes, is decoded.
    pub proof fn lemma_minimal_decodes(source: Map<Seq<char>, Value>)
        requires
            source.dom() =~= set![
                "id"@,
                "attachments"@,
                "author"@,
                "channel_id"@,
                "content"@,
                "embeds"@,
                "type"@,
                "mention_everyone"@,
                "mention_roles"@,
                "mentions"@,
                "pinned"@,
                "timestamp"@,
                "tts"@,
            ],
            MessageId::decoded(source["id"@]) is Ok,
            <Vec<Attachment>>::decoded(source["attachments"@]) is Ok,
            User::decoded(source["author"@]) is Ok,
            ChannelId::decoded(source["channel_id"@]) is Ok,
            String::decoded(source["content"@]) is Ok,
            <Vec<Embed>>::decoded(source["embeds"@]) is Ok,
            <Numbered<MessageType>>::decoded(source["type"@]) is Ok,
            bool::decoded(source["mention_everyone"@]) is Ok,
            <Vec<RoleId>>::decoded(source["mention_roles"@]) is Ok,
            <Vec<User>>::decoded(source["mentions"@]) is Ok,
            bool::decoded(source["pinned"@]) is Ok,
            String::decoded(source["timestamp"@]) is Ok,
            bool::decoded(source["tts"@]) is Ok,
        ensures
            Message::from_fields(source) is Ok,
    {
        Message::lemma_field_names();
    }

    /// Without one of its required fields, a mapping that was decoded as a message fails, and
    /// the error names exactly the field that is gone.
    pub proof fn lemma_missing_required_field(source: Map<Seq<char>, Value>)
        requires
            Message::from_fields(source) is Ok,
        ensures
            fails_with(
                Message::from_fields(source.remove("id"@)),
                Error::MissingField("id"),
            ),
            fails_with(
                Message::from_fields(source.remove("attachments"@)),
                Error::MissingField("attachments"),
            ),
            fails_with(
                Message::from_fields(source.remove("author"@)),
                Error::MissingField("author"),
            ),
            fails_with(
                Message::from_fields(source.remove("channel_id"@)),
                Error::MissingField("channel_id"),
            ),
            fails_with(
                Message::from_fields(source.remove("content"@)),
                Error::MissingField("content"),
            ),
            fails_with(
                Message::from_fields(source.remove("embeds"@)),
                Error::MissingField("embeds"),
            ),
            fails_with(
                Message::from_fields(source.remove("type"@)),
                Error::MissingField("type"),
            ),
            fails_with(
                Message::from_fields(source.remove("mention_everyone"@)),
                Error::MissingField("mention_everyone"),
            ),
            fails_with(
                Message::from_fields(source.remove("mention_roles"@)),
                Error::MissingField("mention_roles"),
            ),
            fails_with(
                Message::from_fields(source.remove("mentions"@)),
                Error::MissingField("mentions"),
            ),
            fails_with(
                Message::from_fields(source.remove("pinned"@)),
                Error::MissingField("pinned"),
            ),
            fails_with(
                Message::from_fields(source.remove("timestamp"@)),
                Error::MissingField("timestamp"),
            ),
            fails_with(
                Message::from_fields(source.remove("tts"@)),
                Error::MissingField("tts"),
            ),
    {
        Message::lemma_field_names();
    }

    /// A field that a message does not have changes nothing: it is passed over, whatever it
    /// holds.
    pub proof fn lemma_unknown_field_ignored(
        source: Map<Seq<char>, Value>,
        key: Seq<char>,
        value: Value,
    )
        requires
            key != "id"@,
            key != "attachments"@,
            key != "author"@,
            key != "channel_id"@,
            key != "content"@,
            key != "edited_timestamp"@,
            key != "embeds"@,
            key != "hit"@,
            key != "type"@,
            key != "mention_everyone"@,
            key != "mention_roles"@,
            key != "mentions"@,
            key != "nonce"@,
            key != "pinned"@,
            key != "reactions"@,
            key != "timestamp"@,
            key != "tts"@,
            key != "webhook_id"@,
        ensures
            Message::from_fields(source.insert(key, value)) == Message::from_fields(source),
    {
    }

    /// An optional field of a message that is absent is decoded as absent, or as its default.
    /// One that is present with a value of the wrong shape is not taken for absent: the record
    /// fails with that mismatch, which names the field.
    pub proof fn lemma_optional_fields(
        source: Map<Seq<char>, Value>,
        wrong: Value,
        expected: Shape,
    )
        requires
            Message::from_fields(source) is Ok,
        ensures
            !source.contains_key("edited_timestamp"@)
                ==> Message::from_fields(source)->Ok_0.edited_timestamp is None,
            fails_with(String::decoded(wrong), Error::mismatch(expected)) ==> fails_with(
                Message::from_fields(source.insert("edited_timestamp"@, wrong)),
                Error::TypeMismatch(expected, Some("edited_timestamp")),
            ),
            !source.contains_key("hit"@) ==> Message::from_fields(source)->Ok_0.hit == false,
            fails_with(bool::decoded(wrong), Error::mismatch(expected)) ==> fails_with(
                Message::from_fields(source.insert("hit"@, wrong)),
                Error::TypeMismatch(expected, Some("hit")),
            ),
            !source.contains_key("nonce"@) ==> Message::from_fields(source)->Ok_0.nonce is None,
            fails_with(String::decoded(wrong), Error::mismatch(expected)) ==> fails_with(
                Message::from_fields(source.insert("nonce"@, wrong)),
                Error::TypeMismatch(expected, Some("nonce")),
            ),
            !source.contains_key("reactions"@)
                ==> Message::from_fields(source)->Ok_0.reactions =~= Seq::empty(),
            fails_with(
                <Vec<MessageReaction>>::decoded(wrong),
                Error::mismatch(expected),
            ) ==> fails_with(
                Message::from_fields(source.insert("reactions"@, wrong)),
                Error::TypeMismatch(expected, Some("reactions")),
            ),
            !source.contains_key("webhook_id"@)
                ==> Message::from_fields(source)->Ok_0.webhook_id is None,
            fails_with(WebhookId::decoded(wrong), Error::mismatch(expected)) ==> fails_with(
                Message::from_fields(source.insert("webhook_id"@, wrong)),
                Error::TypeMismatch(expected, Some("webhook_id")),
            ),
    {
        Message::lemma_field_names();
    }
}

impl Decode for Message {
    open spec fn decoded(value: Value) -> Result<MessageModel, Error> {
        match value {
            Value::Mapping(source) => Message::from_fields(source@),
            _ => Err(Error::mismatch(Shape::Mapping)),
        }
    }

    fn decode(value: Value) -> (r: Result<Message, Error>) {
        let mut source = expect_map(value)?;
        proof {
            Message::lemma_field_names();
        }
        let id = required::<MessageId>(&mut source, "id")?;
        let attachments = required::<Vec<Attachment>>(&mut source, "attachments")?;
        let author = required::<User>(&mut source, "author")?;
        let channel_id = required::<ChannelId>(&mut source, "channel_id")?;
        let content = required::<String>(&mut source, "content")?;
        let edited_timestamp = optional::<String>(&mut source, "edited_timestamp")?;
        let embeds = required::<Vec<Embed>>(&mut source, "embeds")?;
        let hit = optional::<bool>(&mut source, "hit")?;
        let kind = required::<Numbered<MessageType>>(&mut source, "type")?;
        let mention_everyone = required::<bool>(&mut source, "mention_everyone")?;
        let mention_roles = required::<Vec<RoleId>>(&mut source, "mention_roles")?;
        let mentions = required::<Vec<User>>(&mut source, "mentions")?;
        let nonce = optional::<String>(&mut source, "nonce")?;
        let pinned = required::<bool>(&mut source, "pinned")?;
        let reactions = optional::<Vec<MessageReaction>>(&mut source, "reactions")?;
        let timestamp = required::<String>(&mut source, "timestamp")?;
        let tts = required::<bool>(&mut source, "tts")?;
        let webhook_id = optional::<WebhookId>(&mut source, "webhook_id")?;
        Ok(
            Message {
                id,
                attachments,
                author,
                channel_id,
                content,
                edited_timestamp,
                embeds,
                hit: match hit {
                    Some(given) => given,
                    None => false,
                },
                kind: kind.0,
                mention_everyone,
                mention_roles,
                mentions,
                nonce,
                pinned,
                reactions: match reactions {
                    Some(given) => given,
                    None => no_items(),
                },
                timestamp,
                tts,
                webhook_id,
            },
        )
    }
}

/// What a search for messages found.
#[derive(Clone, Debug, PartialEq, Eq)]
pub struct SearchResult {
    /// The messages found, each among the messages around it. On the wire the field is called
    /// `messages`.
    pub results: Vec<Vec<Message>>,
    /// How many messages the search found, those around them not counted. On the wire the field
    /// is called `total_results`.
    pub total: u64,
}

/// The model of a search result: what the record holds, as a mathematical value.
pub struct SearchResultModel {
    pub results: Seq<Seq<MessageModel>>,
    pub total: u64,
}

impl DeepView for SearchResult {
    type V = SearchResultModel;

    open spec fn deep_view(&self) -> SearchResultModel {
        SearchResultModel {
            results: self.results.deep_view(),
            total: self.total.deep_view(),
        }
    }
}

impl SearchResult {
    /// What a mapping with the contents `source` gives as a search result: the record put
    /// together from its fields, or the error of the first field, in the order written here,
    /// that fails.
    pub open spec fn from_fields(source: Map<Seq<char>, Value>) -> Result<
        SearchResultModel,
        Error,
    > {
        let results = required_field::<Vec<Vec<Message>>>(source, "messages");
        let total = required_field::<u64>(source, "total_results");
        if results is Err {
            Err(results->Err_0)
        } else if total is Err {
            Err(total->Err_0)
        } else {
            Ok(
                SearchResultModel {
                    results: results->Ok_0,
                    total: total->Ok_0,
                },
            )
        }
    }

    /// What tells the field names of a search result apart: their lengths and, among names of
    /// one length, their letters.
    pub proof fn lemma_field_names()
        ensures
            "messages"@.len() == 8,
            "total_results"@.len() == 13,
    {
        reveal_strlit("messages");
        reveal_strlit("total_results");
    }

    /// A mapping that holds the required fields of a search result and no other, each with a
    /// value that decodes, is decoded.
    pub proof fn lemma_minimal_decodes(source: Map<Seq<char>, Value>)
        requires
            source.dom() =~= set!["messages"@, "total_results"@],
            <Vec<Vec<Message>>>::decoded(source["messages"@]) is Ok,
            u64::decoded(source["total_results"@]) is Ok,
        ensures
            SearchResult::from_fields(source) is Ok,
    {
        SearchResult::lemma_field_names();
    }

    /// Without one of its required fields, a mapping that was decoded as a search result fails,
    /// and the error names exactly the field that is gone.
    pub proof fn lemma_missing_required_field(source: Map<Seq<char>, Value>)
        requires
            SearchResult::from_fields(source) is Ok,
        ensures
            fails_with(
                SearchResult::from_fields(source.remove("messages"@)),
                Error::MissingField("messages"),
            ),
            fails_with(
                SearchResult::from_fields(source.remove("total_results"@)),
                Error::MissingField("total_results"),
            ),
    {
        SearchResult::lemma_field_names();
    }

    /// A field that a search result does not have changes nothing: it is passed over, whatever
    /// it holds.
    pub proof fn lemma_unknown_field_ignored(
        source: Map<Seq<char>, Value>,
        key: Seq<char>,
        value: Value,
    )
        requires
            key != "messages"@,
            key != "total_results"@,
        ensures
            SearchResult::from_fields(source.insert(key, value))
                == SearchResult::from_fields(source),
    {
    }
}

impl Decode for SearchResult {
    open spec fn decoded(value: Value) -> Result<SearchResultModel, Error> {
        match value {
            Value::Mapping(source) => SearchResult::from_fields(source@),
            _ => Err(Error::mismatch(Shape::Mapping)),
        }
    }

    fn decode(value: Value) -> (r: Result<SearchResult, Error>) {
        let mut source = expect_map(value)?;
        proof {
            SearchResult::lemma_field_names();
        }
        let results = required::<Vec<Vec<Message>>>(&mut source, "messages")?;
        let total = required::<u64>(&mut source, "total_results")?;
        Ok(
            SearchResult {
                results,
                total,
            },
        )
    }
}

} // verus!
