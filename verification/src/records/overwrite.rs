//! Permission overwrites of a channel.

use crate::access::expect_map;
use crate::codec::Named;
use crate::decode::fails_with;
use crate::decode::required;
use crate::decode::required_field;
use crate::decode::Decode;
use crate::error::Error;
use crate::error::Shape;
use crate::ident::RoleId;
use crate::ident::Snowflake;
use crate::ident::UserId;
use crate::kinds::OverwriteTarget;
use crate::scalar::Permissions;
use crate::value::Value;
use vstd::prelude::*;

verus! {

/// Whom a permission overwrite is for.
#[derive(Clone, Copy, Debug, PartialEq, Eq, Structural)]
pub enum PermissionOverwriteType {
    /// The member with the given id.
    Member(UserId),
    /// The holders of the role with the given id.
    Role(RoleId),
}

/// A permission overwrite of a channel, for a member or for a role.
#[derive(Clone, Copy, Debug, PartialEq, Eq, Structural)]
pub struct PermissionOverwrite {
    /// The permissions that are granted.
    pub allow: Permissions,
    /// The permissions that are taken away.
    pub deny: Permissions,
    /// Whom the overwrite is for.
    pub kind: PermissionOverwriteType,
}

impl DeepView for PermissionOverwrite {
    type V = PermissionOverwrite;

    open spec fn deep_view(&self) -> PermissionOverwrite {
        *self
    }
}

impl PermissionOverwriteType {
    /// The target that an id is of, by the word that stands beside it.
    pub open spec fn of(target: OverwriteTarget, id: Snowflake) -> PermissionOverwriteType {
        match target {
            OverwriteTarget::Member => PermissionOverwriteType::Member(UserId(id.0)),
            OverwriteTarget::Role => PermissionOverwriteType::Role(RoleId(id.0)),
        }
    }
}

impl PermissionOverwrite {
    /// What a mapping with the contents `source` gives as a permission overwrite, or the
    /// error of the first field, in the order written here, that fails. The id is that of a
    /// member or of a role, as the field `type` says.
    pub open spec fn from_fields(source: Map<Seq<char>, Value>) -> Result<
        PermissionOverwrite,
        Error,
    > {
        let id = required_field::<Snowflake>(source, "id");
        let target = required_field::<Named<OverwriteTarget>>(source, "type");
        let allow = required_field::<Permissions>(source, "allow");
        let deny = required_field::<Permissions>(source, "deny");
        if id is Err {
            Err(id->Err_0)
        } else if target is Err {
            Err(target->Err_0)
        } else if allow is Err {
            Err(allow->Err_0)
        } else if deny is Err {
            Err(deny->Err_0)
        } else {
            Ok(
                PermissionOverwrite {
                    allow: allow->Ok_0,
                    deny: deny->Ok_0,
                    kind: PermissionOverwriteType::of(target->Ok_0, id->Ok_0),
                },
            )
        }
    }

    /// What tells the field names of a permission overwrite apart: their lengths and, among
    /// names of one length, a letter.
    pub proof fn lemma_field_names()
        ensures
            "id"@.len() == 2,
            "type"@.len() == 4,
            "allow"@.len() == 5,
            "deny"@.len() == 4,
            "type"@[0] == 't',
            "deny"@[0] == 'd',
    {
        reveal_strlit("id");
        reveal_strlit("type");
        reveal_strlit("allow");
        reveal_strlit("deny");
    }

    /// A mapping that holds the four fields of a permission overwrite and no other, each
    /// with a value that decodes, is decoded.
    pub proof fn lemma_minimal_decodes(source: Map<Seq<char>, Value>)
        requires
            source.dom() =~= set!["id"@, "type"@, "allow"@, "deny"@],
            Snowflake::decoded(source["id"@]) is Ok,
            <Named<OverwriteTarget>>::decoded(source["type"@]) is Ok,
            Permissions::decoded(source["allow"@]) is Ok,
            Permissions::decoded(source["deny"@]) is Ok,
        ensures
            PermissionOverwrite::from_fields(source) is Ok,
    {
        PermissionOverwrite::lemma_field_names();
    }

    /// A field other than the four changes nothing: it is passed over, whatever it holds.
    pub proof fn lemma_unknown_field_ignored(
        source: Map<Seq<char>, Value>,
        key: Seq<char>,
        value: Value,
    )
        requires
            key != "id"@,
            key != "type"@,
            key != "allow"@,
            key != "deny"@,
        ensures
            PermissionOverwrite::from_fields(source.insert(key, value))
                == PermissionOverwrite::from_fields(source),
    {
    }

    /// Without one of its fields, a mapping that was decoded as a permission overwrite
    /// fails, and the error names exactly the field that is gone.
    pub proof fn lemma_missing_required_field(source: Map<Seq<char>, Value>)
        requires
            PermissionOverwrite::from_fields(source) is Ok,
        ensures
            fails_with(
                PermissionOverwrite::from_fields(source.remove("id"@)),
                Error::MissingField("id"),
            ),
            fails_with(
                PermissionOverwrite::from_fields(source.remove("type"@)),
                Error::MissingField("type"),
            ),
            fails_with(
                PermissionOverwrite::from_fields(source.remove("allow"@)),
                Error::MissingField("allow"),
            ),
            fails_with(
                PermissionOverwrite::from_fields(source.remove("deny"@)),
                Error::MissingField("deny"),
            ),
    {
        PermissionOverwrite::lemma_field_names();
    }
}

impl Decode for PermissionOverwrite {
    open spec fn decoded(value: Value) -> Result<PermissionOverwrite, Error> {
        match value {
            Value::Mapping(source) => PermissionOverwrite::from_fields(source@),
            _ => Err(Error::mismatch(Shape::Mapping)),
        }
    }

    fn decode(value: Value) -> (r: Result<PermissionOverwrite, Error>) {
        let mut source = expect_map(value)?;
        proof {
            PermissionOverwrite::lemma_field_names();
        }
        let id = required::<Snowflake>(&mut source, "id")?;
        let target = required::<Named<OverwriteTarget>>(&mut source, "type")?.0;
        let allow = required::<Permissions>(&mut source, "allow")?;
        let deny = required::<Permissions>(&mut source, "deny")?;
        let kind = match target {
            OverwriteTarget::Member => PermissionOverwriteType::Member(UserId(id.0)),
            OverwriteTarget::Role => PermissionOverwriteType::Role(RoleId(id.0)),
        };
        Ok(PermissionOverwrite { allow, deny, kind })
    }
}

} // verus!
