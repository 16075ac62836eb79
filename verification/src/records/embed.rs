//! Embeds and the objects inside them.

use crate::access::expect_map;
use crate::decode::Decode;
use crate::decode::fails_with;
use crate::decode::optional;
use crate::decode::optional_field;
use crate::decode::required;
use crate::decode::required_field;
use crate::error::Error;
use crate::error::Shape;
use crate::scalar::Colour;
use crate::value::Value;
use vstd::prelude::*;

verus! {

/// The author of an embed.
#[derive(Clone, Debug, PartialEq, Eq)]
pub struct EmbedAuthor {
    /// The URL of the icon of the author.
    pub icon_url: Option<String>,
    /// The name of the author.
    pub name: String,
    /// The URL of the icon behind the proxy.
    pub proxy_icon_url: Option<String>,
    /// The URL of the author.
    pub url: Option<String>,
}

/// The model of an embed author: what the record holds, as a mathematical value.
pub struct EmbedAuthorModel {
    pub icon_url: Option<Seq<char>>,
    pub name: Seq<char>,
    pub proxy_icon_url: Option<Seq<char>>,
    pub url: Option<Seq<char>>,
}

impl DeepView for EmbedAuthor {
    type V = EmbedAuthorModel;

    open spec fn deep_view(&self) -> EmbedAuthorModel {
        EmbedAuthorModel {
            icon_url: self.icon_url.deep_view(),
            name: self.name.deep_view(),
            proxy_icon_url: self.proxy_icon_url.deep_view(),
            url: self.url.deep_view(),
        }
    }
}

impl EmbedAuthor {
    /// What a mapping with the contents `source` gives as an embed author: the record put
    /// together from its fields, or the error of the first field, in the order written here,
    /// that fails.
    pub open spec fn from_fields(source: Map<Seq<char>, Value>) -> Result<EmbedAuthorModel, Error> {
        let icon_url = optional_field::<String>(source, "icon_url");
        let name = required_field::<String>(source, "name");
        let proxy_icon_url = optional_field::<String>(source, "proxy_icon_url");
        let url = optional_field::<String>(source, "url");
        if icon_url is Err {
            Err(icon_url->Err_0)
        } else if name is Err {
            Err(name->Err_0)
        } else if proxy_icon_url is Err {
            Err(proxy_icon_url->Err_0)
        } else if url is Err {
            Err(url->Err_0)
        } else {
            Ok(
                EmbedAuthorModel {
                    icon_url: icon_url->Ok_0,
                    name: name->Ok_0,
                    proxy_icon_url: proxy_icon_url->Ok_0,
                    url: url->Ok_0,
                },
            )
        }
    }

    /// What tells the field names of an embed author apart: their lengths and, among names of
    /// one length, their letters.
    pub proof fn lemma_field_names()
        ensures
            "icon_url"@.len() == 8,
            "name"@.len() == 4,
            "proxy_icon_url"@.len() == 14,
            "url"@.len() == 3,
    {
        reveal_strlit("icon_url");
        reveal_strlit("name");
        reveal_strlit("proxy_icon_url");
        reveal_strlit("url");
    }

    /// A mapping that holds the required fields of an embed author and no other, each with a
    /// value that decodes, is decoded.
    pub proof fn lemma_minimal_decodes(source: Map<Seq<char>, Value>)
        requires
            source.dom() =~= set!["name"@],
            String::decoded(source["name"@]) is Ok,
        ensures
            EmbedAuthor::from_fields(source) is Ok,
    {
        EmbedAuthor::lemma_field_names();
    }

    /// Without one of its required fields, a mapping that was decoded as an embed author fails,
    /// and the error names exactly the field that is gone.
    pub proof fn lemma_missing_required_field(source: Map<Seq<char>, Value>)
        requires
            EmbedAuthor::from_fields(source) is Ok,
        ensures
            fails_with(
                EmbedAuthor::from_fields(source.remove("name"@)),
                Error::MissingField("name"),
            ),
    {
        EmbedAuthor::lemma_field_names();
    }

    /// A field that an embed author does not have changes nothing: it is passed over, whatever
    /// it holds.
    pub proof fn lemma_unknown_field_ignored(
        source: Map<Seq<char>, Value>,
        key: Seq<char>,
        value: Value,
    )
        requires
            key != "icon_url"@,
            key != "name"@,
            key != "proxy_icon_url"@,
            key != "url"@,
        ensures
            EmbedAuthor::from_fields(source.insert(key, value)) == EmbedAuthor::from_fields(source),
    {
    }

    /// An optional field of an embed author that is absent is decoded as absent, or as its
    /// default. One that is present with a value of the wrong shape is not taken for absent:
    /// the record fails with that mismatch, which names the field.
    pub proof fn lemma_optional_fields(
        source: Map<Seq<char>, Value>,
        wrong: Value,
        expected: Shape,
    )
        requires
            EmbedAuthor::from_fields(source) is Ok,
        ensures
            !source.contains_key("icon_url"@)
                ==> EmbedAuthor::from_fields(source)->Ok_0.icon_url is None,
            fails_with(String::decoded(wrong), Error::mismatch(expected)) ==> fails_with(
                EmbedAuthor::from_fields(source.insert("icon_url"@, wrong)),
                Error::TypeMismatch(expected, Some("icon_url")),
            ),
            !source.contains_key("proxy_icon_url"@)
                ==> EmbedAuthor::from_fields(source)->Ok_0.proxy_icon_url is None,
            fails_with(String::decoded(wrong), Error::mismatch(expected)) ==> fails_with(
                EmbedAuthor::from_fields(source.insert("proxy_icon_url"@, wrong)),
                Error::TypeMismatch(expected, Some("proxy_icon_url")),
            ),
            !source.contains_key("url"@) ==> EmbedAuthor::from_fields(source)->Ok_0.url is None,
            fails_with(String::decoded(wrong), Error::mismatch(expected)) ==> fails_with(
                EmbedAuthor::from_fields(source.insert("url"@, wrong)),
                Error::TypeMismatch(expected, Some("url")),
            ),
    {
        EmbedAuthor::lemma_field_names();
    }
}

impl Decode for EmbedAuthor {
    open spec fn decoded(value: Value) -> Result<EmbedAuthorModel, Error> {
        match value {
            Value::Mapping(source) => EmbedAuthor::from_fields(source@),
            _ => Err(Error::mismatch(Shape::Mapping)),
        }
    }

    fn decode(value: Value) -> (r: Result<EmbedAuthor, Error>) {
        let mut source = expect_map(value)?;
        proof {
            EmbedAuthor::lemma_field_names();
        }
        let icon_url = optional::<String>(&mut source, "icon_url")?;
        let name = required::<String>(&mut source, "name")?;
        let proxy_icon_url = optional::<String>(&mut source, "proxy_icon_url")?;
        let url = optional::<String>(&mut source, "url")?;
        Ok(
            EmbedAuthor {
                icon_url,
                name,
                proxy_icon_url,
                url,
            },
        )
    }
}

/// A field of an embed: a name with a value.
#[derive(Clone, Debug, PartialEq, Eq)]
pub struct EmbedField {
    /// Whether the field is shown in line with others.
    pub inline: bool,
    /// The name of the field.
    pub name: String,
    /// The value of the field.
    pub value: String,
}

/// The model of an embed field: what the record holds, as a mathematical value.
pub struct EmbedFieldModel {
    pub inline: bool,
    pub name: Seq<char>,
    pub value: Seq<char>,
}

impl DeepView for EmbedField {
    type V = EmbedFieldModel;

    open spec fn deep_view(&self) -> EmbedFieldModel {
        EmbedFieldModel {
            inline: self.inline.deep_view(),
            name: self.name.deep_view(),
            value: self.value.deep_view(),
        }
    }
}

impl EmbedField {
    /// What a mapping with the contents `source` gives as an embed field: the record put
    /// together from its fields, or the error of the first field, in the order written here,
    /// that fails.
    pub open spec fn from_fields(source: Map<Seq<char>, Value>) -> Result<EmbedFieldModel, Error> {
        let inline = required_field::<bool>(source, "inline");
        let name = required_field::<String>(source, "name");
        let value = required_field::<String>(source, "value");
        if inline is Err {
            Err(inline->Err_0)
        } else if name is Err {
            Err(name->Err_0)
        } else if value is Err {
            Err(value->Err_0)
        } else {
            Ok(
                EmbedFieldModel {
                    inline: inline->Ok_0,
                    name: name->Ok_0,
                    value: value->Ok_0,
                },
            )
        }
    }

    /// What tells the field names of an embed field apart: their lengths and, among names of
    /// one length, their letters.
    pub proof fn lemma_field_names()
        ensures
            "inline"@.len() == 6,
            "name"@.len() == 4,
            "value"@.len() == 5,
    {
        reveal_strlit("inline");
        reveal_strlit("name");
        reveal_strlit("value");
    }

    /// A mapping that holds the required fields of an embed field and no other, each with a
    /// value that decodes, is decoded.
    pub proof fn lemma_minimal_decodes(source: Map<Seq<char>, Value>)
        requires
            source.dom() =~= set!["inline"@, "name"@, "value"@],
            bool::decoded(source["inline"@]) is Ok,
            String::decoded(source["name"@]) is Ok,
            String::decoded(source["value"@]) is Ok,
        ensures
            EmbedField::from_fields(source) is Ok,
    {
        EmbedField::lemma_field_names();
    }

    /// Without one of its required fields, a mapping that was decoded as an embed field fails,
    /// and the error names exactly the field that is gone.
    pub proof fn lemma_missing_required_field(source: Map<Seq<char>, Value>)
        requires
            EmbedField::from_fields(source) is Ok,
        ensures
            fails_with(
                EmbedField::from_fields(source.remove("inline"@)),
                Error::MissingField("inline"),
            ),
            fails_with(
                EmbedField::from_fields(source.remove("name"@)),
                Error::MissingField("name"),
            ),
            fails_with(
                EmbedField::from_fields(source.remove("value"@)),
                Error::MissingField("value"),
            ),
    {
        EmbedField::lemma_field_names();
    }

    /// A field that an embed field does not have changes nothing: it is passed over, whatever
    /// it holds.
    pub proof fn lemma_unknown_field_ignored(
        source: Map<Seq<char>, Value>,
        key: Seq<char>,
        value: Value,
    )
        requires
            key != "inline"@,
            key != "name"@,
            key != "value"@,
        ensures
            EmbedField::from_fields(source.insert(key, value)) == EmbedField::from_fields(source),
    {
    }
}

impl Decode for EmbedField {
    open spec fn decoded(value: Value) -> Result<EmbedFieldModel, Error> {
        match value {
            Value::Mapping(source) => EmbedField::from_fields(source@),
            _ => Err(Error::mismatch(Shape::Mapping)),
        }
    }

    fn decode(value: Value) -> (r: Result<EmbedField, Error>) {
        let mut source = expect_map(value)?;
        proof {
            EmbedField::lemma_field_names();
        }
        let inline = required::<bool>(&mut source, "inline")?;
        let name = required::<String>(&mut source, "name")?;
        let value = required::<String>(&mut source, "value")?;
        Ok(
            EmbedField {
                inline,
                name,
                value,
            },
        )
    }
}

/// The footer of an embed.
#[derive(Clone, Debug, PartialEq, Eq)]
pub struct EmbedFooter {
    /// The URL of the icon of the footer.
    pub icon_url: String,
    /// The URL of the icon behind the proxy.
    pub proxy_icon_url: String,
    /// The text of the footer.
    pub text: String,
}

/// The model of an embed footer: what the record holds, as a mathematical value.
pub struct EmbedFooterModel {
    pub icon_url: Seq<char>,
    pub proxy_icon_url: Seq<char>,
    pub text: Seq<char>,
}

impl DeepView for EmbedFooter {
    type V = EmbedFooterModel;

    open spec fn deep_view(&self) -> EmbedFooterModel {
        EmbedFooterModel {
            icon_url: self.icon_url.deep_view(),
            proxy_icon_url: self.proxy_icon_url.deep_view(),
            text: self.text.deep_view(),
        }
    }
}

impl EmbedFooter {
    /// What a mapping with the contents `source` gives as an embed footer: the record put
    /// together from its fields, or the error of the first field, in the order written here,
    /// that fails.
    pub open spec fn from_fields(source: Map<Seq<char>, Value>) -> Result<EmbedFooterModel, Error> {
        let icon_url = required_field::<String>(source, "icon_url");
        let proxy_icon_url = required_field::<String>(source, "proxy_icon_url");
        let text = required_field::<String>(source, "text");
        if icon_url is Err {
            Err(icon_url->Err_0)
        } else if proxy_icon_url is Err {
            Err(proxy_icon_url->Err_0)
        } else if text is Err {
            Err(text->Err_0)
        } else {
            Ok(
                EmbedFooterModel {
                    icon_url: icon_url->Ok_0,
                    proxy_icon_url: proxy_icon_url->Ok_0,
                    text: text->Ok_0,
                },
            )
        }
    }

    /// What tells the field names of an embed footer apart: their lengths and, among names of
    /// one length, their letters.
    pub proof fn lemma_field_names()
        ensures
            "icon_url"@.len() == 8,
            "proxy_icon_url"@.len() == 14,
            "text"@.len() == 4,
    {
        reveal_strlit("icon_url");
        reveal_strlit("proxy_icon_url");
        reveal_strlit("text");
    }

    /// A mapping that holds the required fields of an embed footer and no other, each with a
    /// value that decodes, is decoded.
    pub proof fn lemma_minimal_decodes(source: Map<Seq<char>, Value>)
        requires
            source.dom() =~= set!["icon_url"@, "proxy_icon_url"@, "text"@],
            String::decoded(source["icon_url"@]) is Ok,
            String::decoded(source["proxy_icon_url"@]) is Ok,
            String::decoded(source["text"@]) is Ok,
        ensures
            EmbedFooter::from_fields(source) is Ok,
    {
        EmbedFooter::lemma_field_names();
    }

    /// Without one of its required fields, a mapping that was decoded as an embed footer fails,
    /// and the error names exactly the field that is gone.
    pub proof fn lemma_missing_required_field(source: Map<Seq<char>, Value>)
        requires
            EmbedFooter::from_fields(source) is Ok,
        ensures
            fails_with(
                EmbedFooter::from_fields(source.remove("icon_url"@)),
                Error::MissingField("icon_url"),
            ),
            fails_with(
                EmbedFooter::from_fields(source.remove("proxy_icon_url"@)),
                Error::MissingField("proxy_icon_url"),
            ),
            fails_with(
                EmbedFooter::from_fields(source.remove("text"@)),
                Error::MissingField("text"),
            ),
    {
        EmbedFooter::lemma_field_names();
    }

    /// A field that an embed footer does not have changes nothing: it is passed over, whatever
    /// it holds.
    pub proof fn lemma_unknown_field_ignored(
        source: Map<Seq<char>, Value>,
        key: Seq<char>,
        value: Value,
    )
        requires
            key != "icon_url"@,
            key != "proxy_icon_url"@,
            key != "text"@,
        ensures
            EmbedFooter::from_fields(source.insert(key, value)) == EmbedFooter::from_fields(source),
    {
    }
}

impl Decode for EmbedFooter {
    open spec fn decoded(value: Value) -> Result<EmbedFooterModel, Error> {
        match value {
            Value::Mapping(source) => EmbedFooter::from_fields(source@),
            _ => Err(Error::mismatch(Shape::Mapping)),
        }
    }

    fn decode(value: Value) -> (r: Result<EmbedFooter, Error>) {
        let mut source = expect_map(value)?;
        proof {
            EmbedFooter::lemma_field_names();
        }
        let icon_url = required::<String>(&mut source, "icon_url")?;
        let proxy_icon_url = required::<String>(&mut source, "proxy_icon_url")?;
        let text = required::<String>(&mut source, "text")?;
        Ok(
            EmbedFooter {
                icon_url,
                proxy_icon_url,
                text,
            },
        )
    }
}

/// The image of an embed.
#[derive(Clone, Debug, PartialEq, Eq)]
pub struct EmbedImage {
    /// The height of the image in pixels.
    pub height: u64,
    /// The URL of the image behind the proxy.
    pub proxy_url: String,
    /// The URL of the image.
    pub url: String,
    /// The width of the image in pixels.
    pub width: u64,
}

/// The model of an embed image: what the record holds, as a mathematical value.
pub struct EmbedImageModel {
    pub height: u64,
    pub proxy_url: Seq<char>,
    pub url: Seq<char>,
    pub width: u64,
}

impl DeepView for EmbedImage {
    type V = EmbedImageModel;

    open spec fn deep_view(&self) -> EmbedImageModel {
        EmbedImageModel {
            height: self.height.deep_view(),
            proxy_url: self.proxy_url.deep_view(),
            url: self.url.deep_view(),
            width: self.width.deep_view(),
        }
    }
}

impl EmbedImage {
    /// What a mapping with the contents `source` gives as an embed image: the record put
    /// together from its fields, or the error of the first field, in the order written here,
    /// that fails.
    pub open spec fn from_fields(source: Map<Seq<char>, Value>) -> Result<EmbedImageModel, Error> {
        let height = required_field::<u64>(source, "height");
        let proxy_url = required_field::<String>(source, "proxy_url");
        let url = required_field::<String>(source, "url");
        let width = required_field::<u64>(source, "width");
        if height is Err {
            Err(height->Err_0)
        } else if proxy_url is Err {
            Err(proxy_url->Err_0)
        } else if url is Err {
            Err(url->Err_0)
        } else if width is Err {
            Err(width->Err_0)
        } else {
            Ok(
                EmbedImageModel {
                    height: height->Ok_0,
                    proxy_url: proxy_url->Ok_0,
                    url: url->Ok_0,
                    width: width->Ok_0,
                },
            )
        }
    }

    /// What tells the field names of an embed image apart: their lengths and, among names of
    /// one length, their letters.
    pub proof fn lemma_field_names()
        ensures
            "height"@.len() == 6,
            "proxy_url"@.len() == 9,
            "url"@.len() == 3,
            "width"@.len() == 5,
    {
        reveal_strlit("height");
        reveal_strlit("proxy_url");
        reveal_strlit("url");
        reveal_strlit("width");
    }

    /// A mapping that holds the required fields of an embed image and no other, each with a
    /// value that decodes, is decoded.
    pub proof fn lemma_minimal_decodes(source: Map<Seq<char>, Value>)
        requires
            source.dom() =~= set!["height"@, "proxy_url"@, "url"@, "width"@],
            u64::decoded(source["height"@]) is Ok,
            String::decoded(source["proxy_url"@]) is Ok,
            String::decoded(source["url"@]) is Ok,
            u64::decoded(source["width"@]) is Ok,
        ensures
            EmbedImage::from_fields(source) is Ok,
    {
        EmbedImage::lemma_field_names();
    }

    /// Without one of its required fields, a mapping that was decoded as an embed image fails,
    /// and the error names exactly the field that is gone.
    pub proof fn lemma_missing_required_field(source: Map<Seq<char>, Value>)
        requires
            EmbedImage::from_fields(source) is Ok,
        ensures
            fails_with(
                EmbedImage::from_fields(source.remove("height"@)),
                Error::MissingField("height"),
            ),
            fails_with(
                EmbedImage::from_fields(source.remove("proxy_url"@)),
                Error::MissingField("proxy_url"),
            ),
            fails_with(
                EmbedImage::from_fields(source.remove("url"@)),
                Error::MissingField("url"),
            ),
            fails_with(
                EmbedImage::from_fields(source.remove("width"@)),
                Error::MissingField("width"),
            ),
    {
        EmbedImage::lemma_field_names();
    }

    /// A field that an embed image does not have changes nothing: it is passed over, whatever
    /// it holds.
    pub proof fn lemma_unknown_field_ignored(
        source: Map<Seq<char>, Value>,
        key: Seq<char>,
        value: Value,
    )
        requires
            key != "height"@,
            key != "proxy_url"@,
            key != "url"@,
            key != "width"@,
        ensures
            EmbedImage::from_fields(source.insert(key, value)) == EmbedImage::from_fields(source),
    {
    }
}

impl Decode for EmbedImage {
    open spec fn decoded(value: Value) -> Result<EmbedImageModel, Error> {
        match value {
            Value::Mapping(source) => EmbedImage::from_fields(source@),
            _ => Err(Error::mismatch(Shape::Mapping)),
        }
    }

    fn decode(value: Value) -> (r: Result<EmbedImage, Error>) {
        let mut source = expect_map(value)?;
        proof {
            EmbedImage::lemma_field_names();
        }
        let height = required::<u64>(&mut source, "height")?;
        let proxy_url = required::<String>(&mut source, "proxy_url")?;
        let url = required::<String>(&mut source, "url")?;
        let width = required::<u64>(&mut source, "width")?;
        Ok(
            EmbedImage {
                height,
                proxy_url,
                url,
                width,
            },
        )
    }
}

/// The provider of an embed.
#[derive(Clone, Debug, PartialEq, Eq)]
pub struct EmbedProvider {
    /// The name of the provider.
    pub name: String,
    /// The URL of the provider.
    pub url: Option<String>,
}

/// The model of an embed provider: what the record holds, as a mathematical value.
pub struct EmbedProviderModel {
    pub name: Seq<char>,
    pub url: Option<Seq<char>>,
}

impl DeepView for EmbedProvider {
    type V = EmbedProviderModel;

    open spec fn deep_view(&self) -> EmbedProviderModel {
        EmbedProviderModel {
            name: self.name.deep_view(),
            url: self.url.deep_view(),
        }
    }
}

impl EmbedProvider {
    /// What a mapping with the contents `source` gives as an embed provider: the record put
    /// together from its fields, or the error of the first field, in the order written here,
    /// that fails.
    pub open spec fn from_fields(source: Map<Seq<char>, Value>) -> Result<
        EmbedProviderModel,
        Error,
    > {
        let name = required_field::<String>(source, "name");
        let url = optional_field::<String>(source, "url");
        if name is Err {
            Err(name->Err_0)
        } else if url is Err {
            Err(url->Err_0)
        } else {
            Ok(
                EmbedProviderModel {
                    name: name->Ok_0,
                    url: url->Ok_0,
                },
            )
        }
    }

    /// What tells the field names of an embed provider apart: their lengths and, among names of
    /// one length, their letters.
    pub proof fn lemma_field_names()
        ensures
            "name"@.len() == 4,
            "url"@.len() == 3,
    {
        reveal_strlit("name");
        reveal_strlit("url");
    }

    /// A mapping that holds the required fields of an embed provider and no other, each with a
    /// value that decodes, is decoded.
    pub proof fn lemma_minimal_decodes(source: Map<Seq<char>, Value>)
        requires
            source.dom() =~= set!["name"@],
            String::decoded(source["name"@]) is Ok,
        ensures
            EmbedProvider::from_fields(source) is Ok,
    {
        EmbedProvider::lemma_field_names();
    }

    /// Without one of its required fields, a mapping that was decoded as an embed provider
    /// fails, and the error names exactly the field that is gone.
    pub proof fn lemma_missing_required_field(source: Map<Seq<char>, Value>)
        requires
            EmbedProvider::from_fields(source) is Ok,
        ensures
            fails_with(
                EmbedProvider::from_fields(source.remove("name"@)),
                Error::MissingField("name"),
            ),
    {
        EmbedProvider::lemma_field_names();
    }

    /// A field that an embed provider does not have changes nothing: it is passed over,
    /// whatever it holds.
    pub proof fn lemma_unknown_field_ignored(
        source: Map<Seq<char>, Value>,
        key: Seq<char>,
        value: Value,
    )
        requires
            key != "name"@,
            key != "url"@,
        ensures
            EmbedProvider::from_fields(source.insert(key, value))
                == EmbedProvider::from_fields(source),
    {
    }

    /// An optional field of an embed provider that is absent is decoded as absent, or as its
    /// default. One that is present with a value of the wrong shape is not taken for absent:
    /// the record fails with that mismatch, which names the field.
    pub proof fn lemma_optional_fields(
        source: Map<Seq<char>, Value>,
        wrong: Value,
        expected: Shape,
    )
        requires
            EmbedProvider::from_fields(source) is Ok,
        ensures
            !source.contains_key("url"@) ==> EmbedProvider::from_fields(source)->Ok_0.url is None,
            fails_with(String::decoded(wrong), Error::mismatch(expected)) ==> fails_with(
                EmbedProvider::from_fields(source.insert("url"@, wrong)),
                Error::TypeMismatch(expected, Some("url")),
            ),
    {
        EmbedProvider::lemma_field_names();
    }
}

impl Decode for EmbedProvider {
    open spec fn decoded(value: Value) -> Result<EmbedProviderModel, Error> {
        match value {
            Value::Mapping(source) => EmbedProvider::from_fields(source@),
            _ => Err(Error::mismatch(Shape::Mapping)),
        }
    }

    fn decode(value: Value) -> (r: Result<EmbedProvider, Error>) {
        let mut source = expect_map(value)?;
        proof {
            EmbedProvider::lemma_field_names();
        }
        let name = required::<String>(&mut source, "name")?;
        let url = optional::<String>(&mut source, "url")?;
        Ok(
            EmbedProvider {
                name,
                url,
            },
        )
    }
}

/// The thumbnail of an embed.
#[derive(Clone, Debug, PartialEq, Eq)]
pub struct EmbedThumbnail {
    /// The height of the thumbnail in pixels.
    pub height: u64,
    /// The URL of the thumbnail behind the proxy.
    pub proxy_url: String,
    /// The URL of the thumbnail.
    pub url: String,
    /// The width of the thumbnail in pixels.
    pub width: u64,
}

/// The model of an embed thumbnail: what the record holds, as a mathematical value.
pub struct EmbedThumbnailModel {
    pub height: u64,
    pub proxy_url: Seq<char>,
    pub url: Seq<char>,
    pub width: u64,
}

impl DeepView for EmbedThumbnail {
    type V = EmbedThumbnailModel;

    open spec fn deep_view(&self) -> EmbedThumbnailModel {
        EmbedThumbnailModel {
            height: self.height.deep_view(),
            proxy_url: self.proxy_url.deep_view(),
            url: self.url.deep_view(),
            width: self.width.deep_view(),
        }
    }
}

impl EmbedThumbnail {
    /// What a mapping with the contents `source` gives as an embed thumbnail: the record put
    /// together from its fields, or the error of the first field, in the order written here,
    /// that fails.
    pub open spec fn from_fields(source: Map<Seq<char>, Value>) -> Result<
        EmbedThumbnailModel,
        Error,
    > {
        let height = required_field::<u64>(source, "height");
        let proxy_url = required_field::<String>(source, "proxy_url");
        let url = required_field::<String>(source, "url");
        let width = required_field::<u64>(source, "width");
        if height is Err {
            Err(height->Err_0)
        } else if proxy_url is Err {
            Err(proxy_url->Err_0)
        } else if url is Err {
            Err(url->Err_0)
        } else if width is Err {
            Err(width->Err_0)
        } else {
            Ok(
                EmbedThumbnailModel {
                    height: height->Ok_0,
                    proxy_url: proxy_url->Ok_0,
                    url: url->Ok_0,
                    width: width->Ok_0,
                },
            )
        }
    }

    /// What tells the field names of an embed thumbnail apart: their lengths and, among names
    /// of one length, their letters.
    pub proof fn lemma_field_names()
        ensures
            "height"@.len() == 6,
            "proxy_url"@.len() == 9,
            "url"@.len() == 3,
            "width"@.len() == 5,
    {
        reveal_strlit("height");
        reveal_strlit("proxy_url");
        reveal_strlit("url");
        reveal_strlit("width");
    }

    /// A mapping that holds the required fields of an embed thumbnail and no other, each with a
    /// value that decodes, is decoded.
    pub proof fn lemma_minimal_decodes(source: Map<Seq<char>, Value>)
        requires
            source.dom() =~= set!["height"@, "proxy_url"@, "url"@, "width"@],
            u64::decoded(source["height"@]) is Ok,
            String::decoded(source["proxy_url"@]) is Ok,
            String::decoded(source["url"@]) is Ok,
            u64::decoded(source["width"@]) is Ok,
        ensures
            EmbedThumbnail::from_fields(source) is Ok,
    {
        EmbedThumbnail::lemma_field_names();
    }

    /// Without one of its required fields, a mapping that was decoded as an embed thumbnail
    /// fails, and the error names exactly the field that is gone.
    pub proof fn lemma_missing_required_field(source: Map<Seq<char>, Value>)
        requires
            EmbedThumbnail::from_fields(source) is Ok,
        ensures
            fails_with(
                EmbedThumbnail::from_fields(source.remove("height"@)),
                Error::MissingField("height"),
            ),
            fails_with(
                EmbedThumbnail::from_fields(source.remove("proxy_url"@)),
                Error::MissingField("proxy_url"),
            ),
            fails_with(
                EmbedThumbnail::from_fields(source.remove("url"@)),
                Error::MissingField("url"),
            ),
            fails_with(
                EmbedThumbnail::from_fields(source.remove("width"@)),
                Error::MissingField("width"),
            ),
    {
        EmbedThumbnail::lemma_field_names();
    }

    /// A field that an embed thumbnail does not have changes nothing: it is passed over,
    /// whatever it holds.
    pub proof fn lemma_unknown_field_ignored(
        source: Map<Seq<char>, Value>,
        key: Seq<char>,
        value: Value,
    )
        requires
            key != "height"@,
            key != "proxy_url"@,
            key != "url"@,
            key != "width"@,
        ensures
            EmbedThumbnail::from_fields(source.insert(key, value))
                == EmbedThumbnail::from_fields(source),
    {
    }
}

impl Decode for EmbedThumbnail {
    open spec fn decoded(value: Value) -> Result<EmbedThumbnailModel, Error> {
        match value {
            Value::Mapping(source) => EmbedThumbnail::from_fields(source@),
            _ => Err(Error::mismatch(Shape::Mapping)),
        }
    }

    fn decode(value: Value) -> (r: Result<EmbedThumbnail, Error>) {
        let mut source = expect_map(value)?;
        proof {
            EmbedThumbnail::lemma_field_names();
        }
        let height = required::<u64>(&mut source, "height")?;
        let proxy_url = required::<String>(&mut source, "proxy_url")?;
        let url = required::<String>(&mut source, "url")?;
        let width = required::<u64>(&mut source, "width")?;
        Ok(
            EmbedThumbnail {
                height,
                proxy_url,
                url,
                width,
            },
        )
    }
}

/// The video of an embed.
#[derive(Clone, Debug, PartialEq, Eq)]
pub struct EmbedVideo {
    /// The height of the video in pixels.
    pub height: u64,
    /// The URL of the video.
    pub url: String,
    /// The width of the video in pixels.
    pub width: u64,
}

/// The model of an embed video: what the record holds, as a mathematical value.
pub struct EmbedVideoModel {
    pub height: u64,
    pub url: Seq<char>,
    pub width: u64,
}

impl DeepView for EmbedVideo {
    type V = EmbedVideoModel;

    open spec fn deep_view(&self) -> EmbedVideoModel {
        EmbedVideoModel {
            height: self.height.deep_view(),
            url: self.url.deep_view(),
            width: self.width.deep_view(),
        }
    }
}

impl EmbedVideo {
    /// What a mapping with the contents `source` gives as an embed video: the record put
    /// together from its fields, or the error of the first field, in the order written here,
    /// that fails.
    pub open spec fn from_fields(source: Map<Seq<char>, Value>) -> Result<EmbedVideoModel, Error> {
        let height = required_field::<u64>(source, "height");
        let url = required_field::<String>(source, "url");
        let width = required_field::<u64>(source, "width");
        if height is Err {
            Err(height->Err_0)
        } else if url is Err {
            Err(url->Err_0)
        } else if width is Err {
            Err(width->Err_0)
        } else {
            Ok(
                EmbedVideoModel {
                    height: height->Ok_0,
                    url: url->Ok_0,
                    width: width->Ok_0,
                },
            )
        }
    }

    /// What tells the field names of an embed video apart: their lengths and, among names of
    /// one length, their letters.
    pub proof fn lemma_field_names()
        ensures
            "height"@.len() == 6,
            "url"@.len() == 3,
            "width"@.len() == 5,
    {
        reveal_strlit("height");
        reveal_strlit("url");
        reveal_strlit("width");
    }

    /// A mapping that holds the required fields of an embed video and no other, each with a
    /// value that decodes, is decoded.
    pub proof fn lemma_minimal_decodes(source: Map<Seq<char>, Value>)
        requires
            source.dom() =~= set!["height"@, "url"@, "width"@],
            u64::decoded(source["height"@]) is Ok,
            String::decoded(source["url"@]) is Ok,
            u64::decoded(source["width"@]) is Ok,
        ensures
            EmbedVideo::from_fields(source) is Ok,
    {
        EmbedVideo::lemma_field_names();
    }

    /// Without one of its required fields, a mapping that was decoded as an embed video fails,
    /// and the error names exactly the field that is gone.
    pub proof fn lemma_missing_required_field(source: Map<Seq<char>, Value>)
        requires
            EmbedVideo::from_fields(source) is Ok,
        ensures
            fails_with(
                EmbedVideo::from_fields(source.remove("height"@)),
                Error::MissingField("height"),
            ),
            fails_with(
                EmbedVideo::from_fields(source.remove("url"@)),
                Error::MissingField("url"),
            ),
            fails_with(
                EmbedVideo::from_fields(source.remove("width"@)),
                Error::MissingField("width"),
            ),
    {
        EmbedVideo::lemma_field_names();
    }

    /// A field that an embed video does not have changes nothing: it is passed over, whatever
    /// it holds.
    pub proof fn lemma_unknown_field_ignored(
        source: Map<Seq<char>, Value>,
        key: Seq<char>,
        value: Value,
    )
        requires
            key != "height"@,
            key != "url"@,
            key != "width"@,
        ensures
            EmbedVideo::from_fields(source.insert(key, value)) == EmbedVideo::from_fields(source),
    {
    }
}

impl Decode for EmbedVideo {
    open spec fn decoded(value: Value) -> Result<EmbedVideoModel, Error> {
        match value {
            Value::Mapping(source) => EmbedVideo::from_fields(source@),
            _ => Err(Error::mismatch(Shape::Mapping)),
        }
    }

    fn decode(value: Value) -> (r: Result<EmbedVideo, Error>) {
        let mut source = expect_map(value)?;
        proof {
            EmbedVideo::lemma_field_names();
        }
        let height = required::<u64>(&mut source, "height")?;
        let url = required::<String>(&mut source, "url")?;
        let width = required::<u64>(&mut source, "width")?;
        Ok(
            EmbedVideo {
                height,
                url,
                width,
            },
        )
    }
}

/// Rich content inside a message.
#[derive(Clone, Debug, PartialEq, Eq)]
pub struct Embed {
    /// The author.
    pub author: Option<EmbedAuthor>,
    /// The colour of the bar at the side. On the wire the field is called `color`. Where the
    /// field is absent, this is black.
    pub colour: Colour,
    /// The long text.
    pub description: Option<String>,
    /// The fields.
    pub fields: Option<Vec<EmbedField>>,
    /// The image.
    pub image: Option<EmbedImage>,
    /// The kind of embed, such as `rich`. On the wire the field is called `type`.
    pub kind: String,
    /// The provider.
    pub provider: Option<EmbedProvider>,
    /// The thumbnail.
    pub thumbnail: Option<EmbedThumbnail>,
    /// The time of the content.
    pub timestamp: Option<String>,
    /// The title.
    pub title: Option<String>,
    /// The URL that the title leads to.
    pub url: Option<String>,
    /// The video.
    pub video: Option<EmbedVideo>,
}

/// The model of an embed: what the record holds, as a mathematical value.
pub struct EmbedModel {
    pub author: Option<EmbedAuthorModel>,
    pub colour: Colour,
    pub description: Option<Seq<char>>,
    pub fields: Option<Seq<EmbedFieldModel>>,
    pub image: Option<EmbedImageModel>,
    pub kind: Seq<char>,
    pub provider: Option<EmbedProviderModel>,
    pub thumbnail: Option<EmbedThumbnailModel>,
    pub timestamp: Option<Seq<char>>,
    pub title: Option<Seq<char>>,
    pub url: Option<Seq<char>>,
    pub video: Option<EmbedVideoModel>,
}

impl DeepView for Embed {
    type V = EmbedModel;

    open spec fn deep_view(&self) -> EmbedModel {
        EmbedModel {
            author: self.author.deep_view(),
            colour: self.colour.deep_view(),
            description: self.description.deep_view(),
            fields: self.fields.deep_view(),
            image: self.image.deep_view(),
            kind: self.kind.deep_view(),
            provider: self.provider.deep_view(),
            thumbnail: self.thumbnail.deep_view(),
            timestamp: self.timestamp.deep_view(),
            title: self.title.deep_view(),
            url: self.url.deep_view(),
            video: self.video.deep_view(),
        }
    }
}

impl Embed {
    /// What a mapping with the contents `source` gives as an embed: the record put together
    /// from its fields, or the error of the first field, in the order written here, that fails.
    pub open spec fn from_fields(source: Map<Seq<char>, Value>) -> Result<EmbedModel, Error> {
        let author = optional_field::<EmbedAuthor>(source, "author");
        let colour = optional_field::<Colour>(source, "color");
        let description = optional_field::<String>(source, "description");
        let fields = optional_field::<Vec<EmbedField>>(source, "fields");
        let image = optional_field::<EmbedImage>(source, "image");
        let kind = required_field::<String>(source, "type");
        let provider = optional_field::<EmbedProvider>(source, "provider");
        let thumbnail = optional_field::<EmbedThumbnail>(source, "thumbnail");
        let timestamp = optional_field::<String>(source, "timestamp");
        let title = optional_field::<String>(source, "title");
        let url = optional_field::<String>(source, "url");
        let video = optional_field::<EmbedVideo>(source, "video");
        if author is Err {
            Err(author->Err_0)
        } else if colour is Err {
            Err(colour->Err_0)
        } else if description is Err {
            Err(description->Err_0)
        } else if fields is Err {
            Err(fields->Err_0)
        } else if image is Err {
            Err(image->Err_0)
        } else if kind is Err {
            Err(kind->Err_0)
        } else if provider is Err {
            Err(provider->Err_0)
        } else if thumbnail is Err {
            Err(thumbnail->Err_0)
        } else if timestamp is Err {
            Err(timestamp->Err_0)
        } else if title is Err {
            Err(title->Err_0)
        } else if url is Err {
            Err(url->Err_0)
        } else if video is Err {
            Err(video->Err_0)
        } else {
            Ok(
                EmbedModel {
                    author: author->Ok_0,
                    colour: match colour->Ok_0 {
                        Some(given) => given,
                        None => Colour(0),
                    },
                    description: description->Ok_0,
                    fields: fields->Ok_0,
                    image: image->Ok_0,
                    kind: kind->Ok_0,
                    provider: provider->Ok_0,
                    thumbnail: thumbnail->Ok_0,
                    timestamp: timestamp->Ok_0,
                    title: title->Ok_0,
                    url: url->Ok_0,
                    video: video->Ok_0,
                },
            )
        }
    }

    /// What tells the field names of an embed apart: their lengths and, among names of one
    /// length, their letters.
    pub proof fn lemma_field_names()
        ensures
            "author"@.len() == 6,
            "color"@.len() == 5,
            "description"@.len() == 11,
            "fields"@.len() == 6,
            "image"@.len() == 5,
            "type"@.len() == 4,
            "provider"@.len() == 8,
            "thumbnail"@.len() == 9,
            "timestamp"@.len() == 9,
            "title"@.len() == 5,
            "url"@.len() == 3,
            "video"@.len() == 5,
            "color"@[0] == 'c',
            "image"@[0] == 'i',
            "title"@[0] == 't',
            "video"@[0] == 'v',
            "author"@[0] == 'a',
            "fields"@[0] == 'f',
            "thumbnail"@[1] == 'h',
            "timestamp"@[1] == 'i',
    {
        reveal_strlit("author");
        reveal_strlit("color");
        reveal_strlit("description");
        reveal_strlit("fields");
        reveal_strlit("image");
        reveal_strlit("type");
        reveal_strlit("provider");
        reveal_strlit("thumbnail");
        reveal_strlit("timestamp");
        reveal_strlit("title");
        reveal_strlit("url");
        reveal_strlit("video");
    }

    /// A mapping that holds the required fields of an embed and no other, each with a value
    /// that decodes, is decoded.
    pub proof fn lemma_minimal_decodes(source: Map<Seq<char>, Value>)
        requires
            source.dom() =~= set!["type"@],
            String::decoded(source["type"@]) is Ok,
        ensures
            Embed::from_fields(source) is Ok,
    {
        Embed::lemma_field_names();
    }

    /// Without one of its required fields, a mapping that was decoded as an embed fails, and
    /// the error names exactly the field that is gone.
    pub proof fn lemma_missing_required_field(source: Map<Seq<char>, Value>)
        requires
            Embed::from_fields(source) is Ok,
        ensures
            fails_with(
                Embed::from_fields(source.remove("type"@)),
                Error::MissingField("type"),
            ),
    {
        Embed::lemma_field_names();
    }

    /// A field that an embed does not have changes nothing: it is passed over, whatever it
    /// holds.
    pub proof fn lemma_unknown_field_ignored(
        source: Map<Seq<char>, Value>,
        key: Seq<char>,
        value: Value,
    )
        requires
            key != "author"@,
            key != "color"@,
            key != "description"@,
            key != "fields"@,
            key != "image"@,
            key != "type"@,
            key != "provider"@,
            key != "thumbnail"@,
            key != "timestamp"@,
            key != "title"@,
            key != "url"@,
            key != "video"@,
        ensures
            Embed::from_fields(source.insert(key, value)) == Embed::from_fields(source),
    {
    }

    /// An optional field of an embed that is absent is decoded as absent, or as its default.
    /// One that is present with a value of the wrong shape is not taken for absent: the record
    /// fails with that mismatch, which names the field.
    pub proof fn lemma_optional_fields(
        source: Map<Seq<char>, Value>,
        wrong: Value,
        expected: Shape,
    )
        requires
            Embed::from_fields(source) is Ok,
        ensures
            !source.contains_key("author"@) ==> Embed::from_fields(source)->Ok_0.author is None,
            fails_with(EmbedAuthor::decoded(wrong), Error::mismatch(expected)) ==> fails_with(
                Embed::from_fields(source.insert("author"@, wrong)),
                Error::TypeMismatch(expected, Some("author")),
            ),
            !source.contains_key("color"@) ==> Embed::from_fields(source)->Ok_0.colour == Colour(0),
            fails_with(Colour::decoded(wrong), Error::mismatch(expected)) ==> fails_with(
                Embed::from_fields(source.insert("color"@, wrong)),
                Error::TypeMismatch(expected, Some("color")),
            ),
            !source.contains_key("description"@)
                ==> Embed::from_fields(source)->Ok_0.description is None,
            fails_with(String::decoded(wrong), Error::mismatch(expected)) ==> fails_with(
                Embed::from_fields(source.insert("description"@, wrong)),
                Error::TypeMismatch(expected, Some("description")),
            ),
            !source.contains_key("fields"@) ==> Embed::from_fields(source)->Ok_0.fields is None,
            fails_with(<Vec<EmbedField>>::decoded(wrong), Error::mismatch(expected)) ==> fails_with(
                Embed::from_fields(source.insert("fields"@, wrong)),
                Error::TypeMismatch(expected, Some("fields")),
            ),
            !source.contains_key("image"@) ==> Embed::from_fields(source)->Ok_0.image is None,
            fails_with(EmbedImage::decoded(wrong), Error::mismatch(expected)) ==> fails_with(
                Embed::from_fields(source.insert("image"@, wrong)),
                Error::TypeMismatch(expected, Some("image")),
            ),
            !source.contains_key("provider"@) ==> Embed::from_fields(source)->Ok_0.provider is None,
            fails_with(EmbedProvider::decoded(wrong), Error::mismatch(expected)) ==> fails_with(
                Embed::from_fields(source.insert("provider"@, wrong)),
                Error::TypeMismatch(expected, Some("provider")),
            ),
            !source.contains_key("thumbnail"@)
                ==> Embed::from_fields(source)->Ok_0.thumbnail is None,
            fails_with(EmbedThumbnail::decoded(wrong), Error::mismatch(expected)) ==> fails_with(
                Embed::from_fields(source.insert("thumbnail"@, wrong)),
                Error::TypeMismatch(expected, Some("thumbnail")),
            ),
            !source.contains_key("timestamp"@)
                ==> Embed::from_fields(source)->Ok_0.timestamp is None,
            fails_with(String::decoded(wrong), Error::mismatch(expected)) ==> fails_with(
                Embed::from_fields(source.insert("timestamp"@, wrong)),
                Error::TypeMismatch(expected, Some("timestamp")),
            ),
            !source.contains_key("title"@) ==> Embed::from_fields(source)->Ok_0.title is None,
            fails_with(String::decoded(wrong), Error::mismatch(expected)) ==> fails_with(
                Embed::from_fields(source.insert("title"@, wrong)),
                Error::TypeMismatch(expected, Some("title")),
            ),
            !source.contains_key("url"@) ==> Embed::from_fields(source)->Ok_0.url is None,
            fails_with(String::decoded(wrong), Error::mismatch(expected)) ==> fails_with(
                Embed::from_fields(source.insert("url"@, wrong)),
                Error::TypeMismatch(expected, Some("url")),
            ),
            !source.contains_key("video"@) ==> Embed::from_fields(source)->Ok_0.video is None,
            fails_with(EmbedVideo::decoded(wrong), Error::mismatch(expected)) ==> fails_with(
                Embed::from_fields(source.insert("video"@, wrong)),
                Error::TypeMismatch(expected, Some("video")),
            ),
    {
        Embed::lemma_field_names();
    }
}

impl Decode for Embed {
    open spec fn decoded(value: Value) -> Result<EmbedModel, Error> {
        match value {
            Value::Mapping(source) => Embed::from_fields(source@),
            _ => Err(Error::mismatch(Shape::Mapping)),
        }
    }

    fn decode(value: Value) -> (r: Result<Embed, Error>) {
        let mut source = expect_map(value)?;
        proof {
            Embed::lemma_field_names();
        }
        let author = optional::<EmbedAuthor>(&mut source, "author")?;
        let colour = optional::<Colour>(&mut source, "color")?;
        let description = optional::<String>(&mut source, "description")?;
        let fields = optional::<Vec<EmbedField>>(&mut source, "fields")?;
        let image = optional::<EmbedImage>(&mut source, "image")?;
        let kind = required::<String>(&mut source, "type")?;
        let provider = optional::<EmbedProvider>(&mut source, "provider")?;
        let thumbnail = optional::<EmbedThumbnail>(&mut source, "thumbnail")?;
        let timestamp = optional::<String>(&mut source, "timestamp")?;
        let title = optional::<String>(&mut source, "title")?;
        let url = optional::<String>(&mut source, "url")?;
        let video = optional::<EmbedVideo>(&mut source, "video")?;
        Ok(
            Embed {
                author,
                colour: match colour {
                    Some(given) => given,
                    None => Colour(0),
                },
                description,
                fields,
                image,
                kind,
                provider,
                thumbnail,
                timestamp,
                title,
                url,
                video,
            },
        )
    }
}

} // verus!
