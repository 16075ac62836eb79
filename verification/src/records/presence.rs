//! Presences: the status of a user and the game that the user plays.

use crate::access::expect_map;
use crate::access::expect_string;
use crate::codec::Named;
use crate::codec::Numbered;
use crate::decode::fails_with;
use crate::decode::optional;
use crate::decode::optional_field;
use crate::decode::required;
use crate::decode::required_field;
use crate::decode::Decode;
use crate::error::Error;
use crate::error::Shape;
use crate::ident::UserId;
use crate::keyed::Keyed;
use crate::kinds::GameType;
use crate::kinds::OnlineStatus;
use crate::records::user::User;
use crate::records::user::UserModel;
use crate::text::is_blank;
use crate::text::is_blank_text;
use crate::value::Value;
use vstd::prelude::*;

verus! {

/// The game that a user plays or streams.
#[derive(Clone, Debug, PartialEq, Eq)]
pub struct Game {
    /// Whether the user plays or streams. On the wire the field is called `type`. Where the
    /// field is absent, the user plays.
    pub kind: GameType,
    /// The name of the game.
    pub name: String,
    /// The URL of the stream, where the user streams.
    pub url: Option<String>,
}

/// The model of a game: what the record holds, as a mathematical value.
pub struct GameModel {
    pub kind: GameType,
    pub name: Seq<char>,
    pub url: Option<Seq<char>>,
}

impl DeepView for Game {
    type V = GameModel;

    open spec fn deep_view(&self) -> GameModel {
        GameModel {
            kind: self.kind.deep_view(),
            name: self.name.deep_view(),
            url: self.url.deep_view(),
        }
    }
}

impl Game {
    /// Whether a mapping with the contents `source` names no game: it holds no name, or
    /// null for the name.
    pub open spec fn unnamed(source: Map<Seq<char>, Value>) -> bool {
        !source.contains_key("name"@) || source["name"@] is Null
    }

    /// What a mapping with the contents `source` gives as a game. A mapping without a name,
    /// with null for the name, or with a blank name gives no game, and that is no error.
    /// Any other mapping gives the game put together from its fields, or the error of the
    /// first field, in the order written here, that fails.
    pub open spec fn from_fields(source: Map<Seq<char>, Value>) -> Result<
        Option<GameModel>,
        Error,
    > {
        let name = required_field::<String>(source, "name");
        let kind = optional_field::<Numbered<GameType>>(source, "type");
        let url = optional_field::<String>(source, "url");
        if Game::unnamed(source) {
            Ok(None)
        } else if name is Err {
            Err(name->Err_0)
        } else if is_blank(name->Ok_0) {
            Ok(None)
        } else if kind is Err {
            Err(kind->Err_0)
        } else if url is Err {
            Err(url->Err_0)
        } else {
            Ok(
                Some(
                    GameModel {
                        kind: match kind->Ok_0 {
                            Some(given) => given,
                            None => GameType::Playing,
                        },
                        name: name->Ok_0,
                        url: url->Ok_0,
                    },
                ),
            )
        }
    }

    /// What tells the field names of a game apart: their lengths and, among names of one
    /// length, their letters.
    pub proof fn lemma_field_names()
        ensures
            "name"@.len() == 4,
            "type"@.len() == 4,
            "url"@.len() == 3,
            "name"@[0] == 'n',
            "type"@[0] == 't',
    {
        reveal_strlit("name");
        reveal_strlit("type");
        reveal_strlit("url");
    }

    /// A mapping without a name gives no game, whatever else it holds; so does the empty
    /// mapping.
    pub proof fn lemma_no_name_no_game(source: Map<Seq<char>, Value>)
        requires
            !source.contains_key("name"@),
        ensures
            Game::from_fields(source) == Ok::<Option<GameModel>, Error>(None),
    {
    }

    /// A mapping that holds a name that is a string and not blank, and nothing else, gives
    /// a game of that name that the user plays.
    pub proof fn lemma_minimal_decodes(source: Map<Seq<char>, Value>)
        requires
            source.dom() =~= set!["name"@],
            String::decoded(source["name"@]) is Ok,
            !is_blank(String::decoded(source["name"@])->Ok_0),
        ensures
            Game::from_fields(source) == Ok::<Option<GameModel>, Error>(
                Some(
                    GameModel {
                        kind: GameType::Playing,
                        name: String::decoded(source["name"@])->Ok_0,
                        url: None,
                    },
                ),
            ),
    {
        Game::lemma_field_names();
    }

    /// A field that a game does not have changes nothing: it is passed over, whatever it
    /// holds.
    pub proof fn lemma_unknown_field_ignored(
        source: Map<Seq<char>, Value>,
        key: Seq<char>,
        value: Value,
    )
        requires
            key != "name"@,
            key != "type"@,
            key != "url"@,
        ensures
            Game::from_fields(source.insert(key, value)) == Game::from_fields(source),
    {
    }

    /// An optional field of a game that is absent is decoded as absent, or as its default.
    /// One that is present with a value of the wrong shape is not taken for absent: the game
    /// fails with that mismatch, which names the field.
    pub proof fn lemma_optional_fields(
        source: Map<Seq<char>, Value>,
        wrong: Value,
        expected: Shape,
    )
        requires
            Game::from_fields(source) is Ok,
            Game::from_fields(source)->Ok_0 is Some,
        ensures
            !source.contains_key("type"@) ==> Game::from_fields(source)->Ok_0->Some_0.kind
                == GameType::Playing,
            fails_with(<Numbered<GameType>>::decoded(wrong), Error::mismatch(expected))
                ==> fails_with(
                Game::from_fields(source.insert("type"@, wrong)),
                Error::TypeMismatch(expected, Some("type")),
            ),
            !source.contains_key("url"@) ==> Game::from_fields(source)->Ok_0->Some_0.url is None,
            fails_with(String::decoded(wrong), Error::mismatch(expected)) ==> fails_with(
                Game::from_fields(source.insert("url"@, wrong)),
                Error::TypeMismatch(expected, Some("url")),
            ),
    {
        Game::lemma_field_names();
    }
}

impl Decode for Option<Game> {
    open spec fn decoded(value: Value) -> Result<Option<GameModel>, Error> {
        match value {
            Value::Mapping(source) => Game::from_fields(source@),
            _ => Err(Error::mismatch(Shape::Mapping)),
        }
    }

    fn decode(value: Value) -> (r: Result<Option<Game>, Error>) {
        let mut source = expect_map(value)?;
        proof {
            Game::lemma_field_names();
        }
        let name = match source.remove("name") {
            None => {
                return Ok(None);
            },
            Some(Value::Null) => {
                return Ok(None);
            },
            Some(given) => match expect_string(given) {
                Ok(name) => name,
                Err(e) => {
                    return Err(e.at("name"));
                },
            },
        };
        if is_blank_text(name.as_str()) {
            return Ok(None);
        }
        let kind = optional::<Numbered<GameType>>(&mut source, "type")?;
        let url = optional::<String>(&mut source, "url")?;
        Ok(
            Some(
                Game {
                    kind: match kind {
                        Some(given) => given.0,
                        None => GameType::Playing,
                    },
                    name,
                    url,
                },
            ),
        )
    }
}

/// The user of a presence: always the id, and the user itself where more than the id is
/// told.
#[derive(Clone, Debug, PartialEq, Eq)]
pub struct PresenceUser {
    /// The id of the user.
    pub id: UserId,
    /// The user, where the mapping holds more than one key.
    pub user: Option<User>,
}

/// The model of the user of a presence.
pub struct PresenceUserModel {
    pub id: UserId,
    pub user: Option<UserModel>,
}

impl DeepView for PresenceUser {
    type V = PresenceUserModel;

    open spec fn deep_view(&self) -> PresenceUserModel {
        PresenceUserModel { id: self.id.deep_view(), user: self.user.deep_view() }
    }
}

impl Decode for PresenceUser {
    /// A mapping with more than one key is a whole user, whose id is taken. A mapping with
    /// one key or none gives the id in its field `id`, and no user.
    open spec fn decoded(value: Value) -> Result<PresenceUserModel, Error> {
        match value {
            Value::Mapping(source) => if source.entries().len() > 1 {
                match User::from_fields(source@) {
                    Ok(user) => Ok(PresenceUserModel { id: user.id, user: Some(user) }),
                    Err(e) => Err(e),
                }
            } else {
                match required_field::<UserId>(source@, "id") {
                    Ok(id) => Ok(PresenceUserModel { id, user: None }),
                    Err(e) => Err(e),
                }
            },
            _ => Err(Error::mismatch(Shape::Mapping)),
        }
    }

    fn decode(value: Value) -> (r: Result<PresenceUser, Error>) {
        let mut source = expect_map(value)?;
        if source.len() > 1 {
            match User::decode(Value::Mapping(source)) {
                Ok(user) => Ok(PresenceUser { id: user.id, user: Some(user) }),
                Err(e) => Err(e),
            }
        } else {
            let id = required::<UserId>(&mut source, "id")?;
            Ok(PresenceUser { id, user: None })
        }
    }
}

/// The presence of a user: status and game.
#[derive(Clone, Debug, PartialEq, Eq)]
pub struct Presence {
    /// The game that the user plays, if any.
    pub game: Option<Game>,
    /// When the presence last changed, if that is known.
    pub last_modified: Option<u64>,
    /// The nickname of the user in the guild, if one is set.
    pub nick: Option<String>,
    /// The status of the user.
    pub status: OnlineStatus,
    /// The id of the user. On the wire it is the field `id` of the mapping `user`.
    pub user_id: UserId,
    /// The user, where the mapping `user` tells more than the id.
    pub user: Option<User>,
}

/// The model of a presence: what the record holds, as a mathematical value.
pub struct PresenceModel {
    pub game: Option<GameModel>,
    pub last_modified: Option<u64>,
    pub nick: Option<Seq<char>>,
    pub status: OnlineStatus,
    pub user_id: UserId,
    pub user: Option<UserModel>,
}

impl DeepView for Presence {
    type V = PresenceModel;

    open spec fn deep_view(&self) -> PresenceModel {
        PresenceModel {
            game: self.game.deep_view(),
            last_modified: self.last_modified.deep_view(),
            nick: self.nick.deep_view(),
            status: self.status.deep_view(),
            user_id: self.user_id.deep_view(),
            user: self.user.deep_view(),
        }
    }
}

impl Presence {
    /// What a mapping with the contents `source` gives as a presence: the record put
    /// together from its fields, or the error of the first field, in the order written here,
    /// that fails. The id of the user, and the user where there is one, come from the field
    /// `user`; a field `game` that names no game gives none.
    pub open spec fn from_fields(source: Map<Seq<char>, Value>) -> Result<PresenceModel, Error> {
        let user = required_field::<PresenceUser>(source, "user");
        let game = optional_field::<Option<Game>>(source, "game");
        let status = required_field::<Named<OnlineStatus>>(source, "status");
        let last_modified = optional_field::<u64>(source, "last_modified");
        let nick = optional_field::<String>(source, "nick");
        if user is Err {
            Err(user->Err_0)
        } else if game is Err {
            Err(game->Err_0)
        } else if status is Err {
            Err(status->Err_0)
        } else if last_modified is Err {
            Err(last_modified->Err_0)
        } else if nick is Err {
            Err(nick->Err_0)
        } else {
            Ok(
                PresenceModel {
                    game: match game->Ok_0 {
                        Some(given) => given,
                        None => None,
                    },
                    last_modified: last_modified->Ok_0,
                    nick: nick->Ok_0,
                    status: status->Ok_0,
                    user_id: user->Ok_0.id,
                    user: user->Ok_0.user,
                },
            )
        }
    }

    /// What tells the field names of a presence apart: their lengths and, among names of
    /// one length, their letters.
    pub proof fn lemma_field_names()
        ensures
            "user"@.len() == 4,
            "game"@.len() == 4,
            "status"@.len() == 6,
            "last_modified"@.len() == 13,
            "nick"@.len() == 4,
            "user"@[0] == 'u',
            "game"@[0] == 'g',
            "nick"@[0] == 'n',
    {
        reveal_strlit("user");
        reveal_strlit("game");
        reveal_strlit("status");
        reveal_strlit("last_modified");
        reveal_strlit("nick");
    }

    /// A mapping that holds the required fields of a presence and no other, each with a
    /// value that decodes, is decoded.
    pub proof fn lemma_minimal_decodes(source: Map<Seq<char>, Value>)
        requires
            source.dom() =~= set!["user"@, "status"@],
            PresenceUser::decoded(source["user"@]) is Ok,
            <Named<OnlineStatus>>::decoded(source["status"@]) is Ok,
        ensures
            Presence::from_fields(source) is Ok,
    {
        Presence::lemma_field_names();
    }

    /// Without one of its required fields, a mapping that was decoded as a presence fails,
    /// and the error names exactly the field that is gone.
    pub proof fn lemma_missing_required_field(source: Map<Seq<char>, Value>)
        requires
            Presence::from_fields(source) is Ok,
        ensures
            fails_with(
                Presence::from_fields(source.remove("user"@)),
                Error::MissingField("user"),
            ),
            fails_with(
                Presence::from_fields(source.remove("status"@)),
                Error::MissingField("status"),
            ),
    {
        Presence::lemma_field_names();
    }

    /// A field that a presence does not have changes nothing: it is passed over, whatever it
    /// holds.
    pub proof fn lemma_unknown_field_ignored(
        source: Map<Seq<char>, Value>,
        key: Seq<char>,
        value: Value,
    )
        requires
            key != "user"@,
            key != "game"@,
            key != "status"@,
            key != "last_modified"@,
            key != "nick"@,
        ensures
            Presence::from_fields(source.insert(key, value)) == Presence::from_fields(source),
    {
    }

    /// An optional field of a presence that is absent is decoded as absent. One that is
    /// present with a value of the wrong shape is not taken for absent: the record fails with
    /// that mismatch, which names the field.
    pub proof fn lemma_optional_fields(
        source: Map<Seq<char>, Value>,
        wrong: Value,
        expected: Shape,
    )
        requires
            Presence::from_fields(source) is Ok,
        ensures
            !source.contains_key("game"@) ==> Presence::from_fields(source)->Ok_0.game is None,
            fails_with(<Option<Game>>::decoded(wrong), Error::mismatch(expected)) ==> fails_with(
                Presence::from_fields(source.insert("game"@, wrong)),
                Error::TypeMismatch(expected, Some("game")),
            ),
            !source.contains_key("last_modified"@)
                ==> Presence::from_fields(source)->Ok_0.last_modified is None,
            fails_with(u64::decoded(wrong), Error::mismatch(expected)) ==> fails_with(
                Presence::from_fields(source.insert("last_modified"@, wrong)),
                Error::TypeMismatch(expected, Some("last_modified")),
            ),
            !source.contains_key("nick"@) ==> Presence::from_fields(source)->Ok_0.nick is None,
            fails_with(String::decoded(wrong), Error::mismatch(expected)) ==> fails_with(
                Presence::from_fields(source.insert("nick"@, wrong)),
                Error::TypeMismatch(expected, Some("nick")),
            ),
    {
        Presence::lemma_field_names();
    }
}

impl Decode for Presence {
    open spec fn decoded(value: Value) -> Result<PresenceModel, Error> {
        match value {
            Value::Mapping(source) => Presence::from_fields(source@),
            _ => Err(Error::mismatch(Shape::Mapping)),
        }
    }

    fn decode(value: Value) -> (r: Result<Presence, Error>) {
        let mut source = expect_map(value)?;
        proof {
            Presence::lemma_field_names();
        }
        let user = required::<PresenceUser>(&mut source, "user")?;
        let game = optional::<Option<Game>>(&mut source, "game")?;
        let status = required::<Named<OnlineStatus>>(&mut source, "status")?.0;
        let last_modified = optional::<u64>(&mut source, "last_modified")?;
        let nick = optional::<String>(&mut source, "nick")?;
        Ok(
            Presence {
                game: match game {
                    Some(given) => given,
                    None => None,
                },
                last_modified,
                nick,
                status,
                user_id: user.id,
                user: user.user,
            },
        )
    }
}

impl Keyed for Presence {
    open spec fn key_of(model: PresenceModel) -> u64 {
        model.user_id.0
    }

    fn key(&self) -> (r: u64) {
        self.user_id.0
    }
}

} // verus!
