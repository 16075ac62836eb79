use discord_decode::decode::Decode;
use discord_decode::error::Error;
use discord_decode::error::Shape;
use discord_decode::records::embed::Embed;
use discord_decode::records::embed::EmbedAuthor;
use discord_decode::records::embed::EmbedField;
use discord_decode::records::embed::EmbedFooter;
use discord_decode::records::embed::EmbedImage;
use discord_decode::records::embed::EmbedProvider;
use discord_decode::records::embed::EmbedThumbnail;
use discord_decode::records::embed::EmbedVideo;
use discord_decode::scalar::Colour;
use discord_decode::value::Mapping;
use discord_decode::value::Value;

fn text(s: &str) -> Value {
    Value::Text(s.to_string())
}

fn mapping(entries: Vec<(&str, Value)>) -> Mapping {
    let mut m = Mapping::new();
    for (key, value) in entries {
        m.insert(key.to_string(), value);
    }
    m
}

fn minimal_embed_author() -> Mapping {
    mapping(vec![
        ("name", text("name")),
    ])
}

fn expected_minimal_embed_author() -> EmbedAuthor {
    EmbedAuthor {
        icon_url: None,
        name: "name".to_string(),
        proxy_icon_url: None,
        url: None,
    }
}

fn minimal_embed_field() -> Mapping {
    mapping(vec![
        ("inline", Value::Bool(true)),
        ("name", text("name")),
        ("value", text("value")),
    ])
}

fn expected_minimal_embed_field() -> EmbedField {
    EmbedField {
        inline: true,
        name: "name".to_string(),
        value: "value".to_string(),
    }
}

fn minimal_embed_footer() -> Mapping {
    mapping(vec![
        ("icon_url", text("icon_url")),
        ("proxy_icon_url", text("proxy_icon_url")),
        ("text", text("text")),
    ])
}

fn expected_minimal_embed_footer() -> EmbedFooter {
    EmbedFooter {
        icon_url: "icon_url".to_string(),
        proxy_icon_url: "proxy_icon_url".to_string(),
        text: "text".to_string(),
    }
}

fn minimal_embed_image() -> Mapping {
    mapping(vec![
        ("height", Value::Integer(16)),
        ("proxy_url", text("proxy_url")),
        ("url", text("url")),
        ("width", Value::Integer(15)),
    ])
}

fn expected_minimal_embed_image() -> EmbedImage {
    EmbedImage {
        height: 16,
        proxy_url: "proxy_url".to_string(),
        url: "url".to_string(),
        width: 15,
    }
}

fn minimal_embed_provider() -> Mapping {
    mapping(vec![
        ("name", text("name")),
    ])
}

fn expected_minimal_embed_provider() -> EmbedProvider {
    EmbedProvider {
        name: "name".to_string(),
        url: None,
    }
}

fn minimal_embed_thumbnail() -> Mapping {
    mapping(vec![
        ("height", Value::Integer(16)),
        ("proxy_url", text("proxy_url")),
        ("url", text("url")),
        ("width", Value::Integer(15)),
    ])
}

fn expected_minimal_embed_thumbnail() -> EmbedThumbnail {
    EmbedThumbnail {
        height: 16,
        proxy_url: "proxy_url".to_string(),
        url: "url".to_string(),
        width: 15,
    }
}

fn minimal_embed_video() -> Mapping {
    mapping(vec![
        ("height", Value::Integer(16)),
        ("url", text("url")),
        ("width", Value::Integer(15)),
    ])
}

fn expected_minimal_embed_video() -> EmbedVideo {
    EmbedVideo {
        height: 16,
        url: "url".to_string(),
        width: 15,
    }
}

fn minimal_embed() -> Mapping {
    mapping(vec![
        ("type", text("type")),
    ])
}

fn expected_minimal_embed() -> Embed {
    Embed {
        author: None,
        colour: Colour(0),
        description: None,
        fields: None,
        image: None,
        kind: "type".to_string(),
        provider: None,
        thumbnail: None,
        timestamp: None,
        title: None,
        url: None,
        video: None,
    }
}

fn full_embed_author() -> Mapping {
    mapping(vec![
        ("icon_url", text("icon_url")),
        ("name", text("name")),
        ("proxy_icon_url", text("proxy_icon_url")),
        ("url", text("url")),
    ])
}

fn expected_full_embed_author() -> EmbedAuthor {
    EmbedAuthor {
        icon_url: Some("icon_url".to_string()),
        name: "name".to_string(),
        proxy_icon_url: Some("proxy_icon_url".to_string()),
        url: Some("url".to_string()),
    }
}

fn full_embed_provider() -> Mapping {
    mapping(vec![
        ("name", text("name")),
        ("url", text("url")),
    ])
}

fn expected_full_embed_provider() -> EmbedProvider {
    EmbedProvider {
        name: "name".to_string(),
        url: Some("url".to_string()),
    }
}

fn full_embed() -> Mapping {
    mapping(vec![
        ("author", Value::Mapping(minimal_embed_author())),
        ("color", Value::Integer(0x336699)),
        ("description", text("description")),
        ("fields", Value::Sequence(vec![Value::Mapping(minimal_embed_field())])),
        ("image", Value::Mapping(minimal_embed_image())),
        ("type", text("type")),
        ("provider", Value::Mapping(minimal_embed_provider())),
        ("thumbnail", Value::Mapping(minimal_embed_thumbnail())),
        ("timestamp", text("timestamp")),
        ("title", text("title")),
        ("url", text("url")),
        ("video", Value::Mapping(minimal_embed_video())),
    ])
}

fn expected_full_embed() -> Embed {
    Embed {
        author: Some(expected_minimal_embed_author()),
        colour: Colour(0x336699),
        description: Some("description".to_string()),
        fields: Some(vec![expected_minimal_embed_field()]),
        image: Some(expected_minimal_embed_image()),
        kind: "type".to_string(),
        provider: Some(expected_minimal_embed_provider()),
        thumbnail: Some(expected_minimal_embed_thumbnail()),
        timestamp: Some("timestamp".to_string()),
        title: Some("title".to_string()),
        url: Some("url".to_string()),
        video: Some(expected_minimal_embed_video()),
    }
}

#[test]
fn embed_author_minimal_decodes() {
    assert_eq!(
        EmbedAuthor::decode(Value::Mapping(minimal_embed_author())),
        Ok(expected_minimal_embed_author())
    );
}

#[test]
fn embed_author_with_every_field_decodes() {
    assert_eq!(
        EmbedAuthor::decode(Value::Mapping(full_embed_author())),
        Ok(expected_full_embed_author())
    );
}

#[test]
fn embed_author_ignores_unknown_fields() {
    let mut source = minimal_embed_author();
    source.insert("not_a_known_field".to_string(), Value::Integer(1));
    assert_eq!(EmbedAuthor::decode(Value::Mapping(source)), Ok(expected_minimal_embed_author()));
}

#[test]
fn embed_author_missing_required_fields() {
    for key in ["name"] {
        let mut source = minimal_embed_author();
        assert!(source.remove(key).is_some());
        assert_eq!(EmbedAuthor::decode(Value::Mapping(source)), Err(Error::MissingField(key)));
    }
}

#[test]
fn embed_author_optional_fields_of_wrong_shape() {
    let cases = [
        ("icon_url", Shape::Text),
        ("proxy_icon_url", Shape::Text),
        ("url", Shape::Text),
    ];
    for (key, shape) in cases {
        let mut source = minimal_embed_author();
        source.insert(key.to_string(), Value::Null);
        assert_eq!(
            EmbedAuthor::decode(Value::Mapping(source)),
            Err(Error::TypeMismatch(shape, Some(key)))
        );
    }
}

#[test]
fn embed_author_from_no_mapping() {
    assert_eq!(EmbedAuthor::decode(Value::Null), Err(Error::TypeMismatch(Shape::Mapping, None)));
}

#[test]
fn embed_field_minimal_decodes() {
    assert_eq!(
        EmbedField::decode(Value::Mapping(minimal_embed_field())),
        Ok(expected_minimal_embed_field())
    );
}

#[test]
fn embed_field_ignores_unknown_fields() {
    let mut source = minimal_embed_field();
    source.insert("not_a_known_field".to_string(), Value::Integer(1));
    assert_eq!(EmbedField::decode(Value::Mapping(source)), Ok(expected_minimal_embed_field()));
}

#[test]
fn embed_field_missing_required_fields() {
    for key in ["inline", "name", "value"] {
        let mut source = minimal_embed_field();
        assert!(source.remove(key).is_some());
        assert_eq!(EmbedField::decode(Value::Mapping(source)), Err(Error::MissingField(key)));
    }
}

#[test]
fn embed_field_from_no_mapping() {
    assert_eq!(EmbedField::decode(Value::Null), Err(Error::TypeMismatch(Shape::Mapping, None)));
}

#[test]
fn embed_footer_minimal_decodes() {
    assert_eq!(
        EmbedFooter::decode(Value::Mapping(minimal_embed_footer())),
        Ok(expected_minimal_embed_footer())
    );
}

#[test]
fn embed_footer_ignores_unknown_fields() {
    let mut source = minimal_embed_footer();
    source.insert("not_a_known_field".to_string(), Value::Integer(1));
    assert_eq!(EmbedFooter::decode(Value::Mapping(source)), Ok(expected_minimal_embed_footer()));
}

#[test]
fn embed_footer_missing_required_fields() {
    for key in ["icon_url", "proxy_icon_url", "text"] {
        let mut source = minimal_embed_footer();
        assert!(source.remove(key).is_some());
        assert_eq!(EmbedFooter::decode(Value::Mapping(source)), Err(Error::MissingField(key)));
    }
}

#[test]
fn embed_footer_from_no_mapping() {
    assert_eq!(EmbedFooter::decode(Value::Null), Err(Error::TypeMismatch(Shape::Mapping, None)));
}

#[test]
fn embed_image_minimal_decodes() {
    assert_eq!(
        EmbedImage::decode(Value::Mapping(minimal_embed_image())),
        Ok(expected_minimal_embed_image())
    );
}

#[test]
fn embed_image_ignores_unknown_fields() {
    let mut source = minimal_embed_image();
    source.insert("not_a_known_field".to_string(), Value::Integer(1));
    assert_eq!(EmbedImage::decode(Value::Mapping(source)), Ok(expected_minimal_embed_image()));
}

#[test]
fn embed_image_missing_required_fields() {
    for key in ["height", "proxy_url", "url", "width"] {
        let mut source = minimal_embed_image();
        assert!(source.remove(key).is_some());
        assert_eq!(EmbedImage::decode(Value::Mapping(source)), Err(Error::MissingField(key)));
    }
}

#[test]
fn embed_image_from_no_mapping() {
    assert_eq!(EmbedImage::decode(Value::Null), Err(Error::TypeMismatch(Shape::Mapping, None)));
}

#[test]
fn embed_provider_minimal_decodes() {
    assert_eq!(
        EmbedProvider::decode(Value::Mapping(minimal_embed_provider())),
        Ok(expected_minimal_embed_provider())
    );
}

#[test]
fn embed_provider_with_every_field_decodes() {
    assert_eq!(
        EmbedProvider::decode(Value::Mapping(full_embed_provider())),
        Ok(expected_full_embed_provider())
    );
}

#[test]
fn embed_provider_ignores_unknown_fields() {
    let mut source = minimal_embed_provider();
    source.insert("not_a_known_field".to_string(), Value::Integer(1));
    assert_eq!(
        EmbedProvider::decode(Value::Mapping(source)),
        Ok(expected_minimal_embed_provider())
    );
}

#[test]
fn embed_provider_missing_required_fields() {
    for key in ["name"] {
        let mut source = minimal_embed_provider();
        assert!(source.remove(key).is_some());
        assert_eq!(EmbedProvider::decode(Value::Mapping(source)), Err(Error::MissingField(key)));
    }
}

#[test]
fn embed_provider_optional_fields_of_wrong_shape() {
    let cases = [
        ("url", Shape::Text),
    ];
    for (key, shape) in cases {
        let mut source = minimal_embed_provider();
        source.insert(key.to_string(), Value::Null);
        assert_eq!(
            EmbedProvider::decode(Value::Mapping(source)),
            Err(Error::TypeMismatch(shape, Some(key)))
        );
    }
}

#[test]
fn embed_provider_from_no_mapping() {
    assert_eq!(EmbedProvider::decode(Value::Null), Err(Error::TypeMismatch(Shape::Mapping, None)));
}

#[test]
fn embed_thumbnail_minimal_decodes() {
    assert_eq!(
        EmbedThumbnail::decode(Value::Mapping(minimal_embed_thumbnail())),
        Ok(expected_minimal_embed_thumbnail())
    );
}

#[test]
fn embed_thumbnail_ignores_unknown_fields() {
    let mut source = minimal_embed_thumbnail();
    source.insert("not_a_known_field".to_string(), Value::Integer(1));
    assert_eq!(
        EmbedThumbnail::decode(Value::Mapping(source)),
        Ok(expected_minimal_embed_thumbnail())
    );
}

#[test]
fn embed_thumbnail_missing_required_fields() {
    for key in ["height", "proxy_url", "url", "width"] {
        let mut source = minimal_embed_thumbnail();
        assert!(source.remove(key).is_some());
        assert_eq!(EmbedThumbnail::decode(Value::Mapping(source)), Err(Error::MissingField(key)));
    }
}

#[test]
fn embed_thumbnail_from_no_mapping() {
    assert_eq!(EmbedThumbnail::decode(Value::Null), Err(Error::TypeMismatch(Shape::Mapping, None)));
}

#[test]
fn embed_video_minimal_decodes() {
    assert_eq!(
        EmbedVideo::decode(Value::Mapping(minimal_embed_video())),
        Ok(expected_minimal_embed_video())
    );
}

#[test]
fn embed_video_ignores_unknown_fields() {
    let mut source = minimal_embed_video();
    source.insert("not_a_known_field".to_string(), Value::Integer(1));
    assert_eq!(EmbedVideo::decode(Value::Mapping(source)), Ok(expected_minimal_embed_video()));
}

#[test]
fn embed_video_missing_required_fields() {
    for key in ["height", "url", "width"] {
        let mut source = minimal_embed_video();
        assert!(source.remove(key).is_some());
        assert_eq!(EmbedVideo::decode(Value::Mapping(source)), Err(Error::MissingField(key)));
    }
}

#[test]
fn embed_video_from_no_mapping() {
    assert_eq!(EmbedVideo::decode(Value::Null), Err(Error::TypeMismatch(Shape::Mapping, None)));
}

#[test]
fn embed_minimal_decodes() {
    assert_eq!(Embed::decode(Value::Mapping(minimal_embed())), Ok(expected_minimal_embed()));
}

#[test]
fn embed_with_every_field_decodes() {
    assert_eq!(Embed::decode(Value::Mapping(full_embed())), Ok(expected_full_embed()));
}

#[test]
fn embed_ignores_unknown_fields() {
    let mut source = minimal_embed();
    source.insert("not_a_known_field".to_string(), Value::Integer(1));
    assert_eq!(Embed::decode(Value::Mapping(source)), Ok(expected_minimal_embed()));
}

#[test]
fn embed_missing_required_fields() {
    for key in ["type"] {
        let mut source = minimal_embed();
        assert!(source.remove(key).is_some());
        assert_eq!(Embed::decode(Value::Mapping(source)), Err(Error::MissingField(key)));
    }
}

#[test]
fn embed_optional_fields_of_wrong_shape() {
    let cases = [
        ("author", Shape::Mapping),
        ("color", Shape::Unsigned32),
        ("description", Shape::Text),
        ("fields", Shape::Sequence),
        ("image", Shape::Mapping),
        ("provider", Shape::Mapping),
        ("thumbnail", Shape::Mapping),
        ("timestamp", Shape::Text),
        ("title", Shape::Text),
        ("url", Shape::Text),
        ("video", Shape::Mapping),
    ];
    for (key, shape) in cases {
        let mut source = minimal_embed();
        source.insert(key.to_string(), Value::Null);
        assert_eq!(
            Embed::decode(Value::Mapping(source)),
            Err(Error::TypeMismatch(shape, Some(key)))
        );
    }
}

#[test]
fn embed_from_no_mapping() {
    assert_eq!(Embed::decode(Value::Null), Err(Error::TypeMismatch(Shape::Mapping, None)));
}
