//! The emoji of a reaction.

use crate::access::expect_map;
use crate::decode::fails_with;
use crate::decode::optional;
use crate::decode::optional_field;
use crate::decode::required;
use crate::decode::required_field;
use crate::decode::Decode;
use crate::error::Error;
use crate::error::Shape;
use crate::ident::EmojiId;
use crate::value::Value;
use vstd::prelude::*;

verus! {

/// The emoji that a reaction was made with.
#[derive(Clone, Debug, PartialEq, Eq)]
pub enum ReactionType {
    /// A custom emoji of a guild, with its id and its name.
    Custom { id: EmojiId, name: String },
    /// An emoji of Unicode, as the string that it is.
    Unicode(String),
}

/// The model of the emoji of a reaction.
pub enum ReactionTypeModel {
    Custom { id: EmojiId, name: Seq<char> },
    Unicode(Seq<char>),
}

impl DeepView for ReactionType {
    type V = ReactionTypeModel;

    open spec fn deep_view(&self) -> ReactionTypeModel {
        match self {
            ReactionType::Custom { id, name } => ReactionTypeModel::Custom { id: *id, name: name@ },
            ReactionType::Unicode(name) => ReactionTypeModel::Unicode(name@),
        }
    }
}

impl ReactionType {
    /// What a mapping with the contents `source` gives as the emoji of a reaction: a custom
    /// emoji where the mapping holds an id beside the name, an emoji of Unicode where it
    /// holds the name alone; or the error of the first of the two fields that fails.
    pub open spec fn from_fields(source: Map<Seq<char>, Value>) -> Result<
        ReactionTypeModel,
        Error,
    > {
        let name = required_field::<String>(source, "name");
        let id = optional_field::<EmojiId>(source, "id");
        if name is Err {
            Err(name->Err_0)
        } else if id is Err {
            Err(id->Err_0)
        } else {
            Ok(
                match id->Ok_0 {
                    Some(given) => ReactionTypeModel::Custom { id: given, name: name->Ok_0 },
                    None => ReactionTypeModel::Unicode(name->Ok_0),
                },
            )
        }
    }

    /// What tells the two field names apart: their lengths.
    pub proof fn lemma_field_names()
        ensures
            "name"@.len() == 4,
            "id"@.len() == 2,
    {
        reveal_strlit("name");
        reveal_strlit("id");
    }

    /// A mapping that holds a name that decodes, and nothing else, is decoded: as an emoji
    /// of Unicode.
    pub proof fn lemma_minimal_decodes(source: Map<Seq<char>, Value>)
        requires
            source.dom() =~= set!["name"@],
            String::decoded(source["name"@]) is Ok,
        ensures
            ReactionType::from_fields(source) is Ok,
            ReactionType::from_fields(source)->Ok_0 is Unicode,
    {
        ReactionType::lemma_field_names();
    }

    /// Without its name, a mapping that was decoded as the emoji of a reaction fails, and
    /// the error names exactly that field.
    pub proof fn lemma_missing_required_field(source: Map<Seq<char>, Value>)
        requires
            ReactionType::from_fields(source) is Ok,
        ensures
            fails_with(
                ReactionType::from_fields(source.remove("name"@)),
                Error::MissingField("name"),
            ),
    {
        ReactionType::lemma_field_names();
    }

    /// A field other than the two changes nothing: it is passed over, whatever it holds.
    pub proof fn lemma_unknown_field_ignored(
        source: Map<Seq<char>, Value>,
        key: Seq<char>,
        value: Value,
    )
        requires
            key != "name"@,
            key != "id"@,
        ensures
            ReactionType::from_fields(source.insert(key, value)) == ReactionType::from_fields(
                source,
            ),
    {
    }

    /// Without an id the emoji is one of Unicode, with an id it is a custom one. An id of
    /// the wrong shape is not taken for an absent one: the emoji fails with that mismatch,
    /// which names the field.
    pub proof fn lemma_optional_fields(
        source: Map<Seq<char>, Value>,
        wrong: Value,
        expected: Shape,
    )
        requires
            ReactionType::from_fields(source) is Ok,
        ensures
            !source.contains_key("id"@) ==> ReactionType::from_fields(source)->Ok_0 is Unicode,
            source.contains_key("id"@) ==> ReactionType::from_fields(source)->Ok_0 is Custom,
            fails_with(EmojiId::decoded(wrong), Error::mismatch(expected)) ==> fails_with(
                ReactionType::from_fields(source.insert("id"@, wrong)),
                Error::TypeMismatch(expected, Some("id")),
            ),
    {
        ReactionType::lemma_field_names();
    }
}

impl Decode for ReactionType {
    open spec fn decoded(value: Value) -> Result<ReactionTypeModel, Error> {
        match value {
            Value::Mapping(source) => ReactionType::from_fields(source@),
            _ => Err(Error::mismatch(Shape::Mapping)),
        }
    }

    fn decode(value: Value) -> (r: Result<ReactionType, Error>) {
        let mut source = expect_map(value)?;
        proof {
            ReactionType::lemma_field_names();
        }
        let name = required::<String>(&mut source, "name")?;
        let id = optional::<EmojiId>(&mut source, "id")?;
        Ok(
            match id {
                Some(given) => ReactionType::Custom { id: given, name },
                None => ReactionType::Unicode(name),
            },
        )
    }
}

} // verus!
