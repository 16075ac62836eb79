use discord_decode::access::expect_bool;
use discord_decode::access::expect_i64;
use discord_decode::access::expect_map;
use discord_decode::access::expect_sequence;
use discord_decode::access::expect_string;
use discord_decode::access::expect_u64;
use discord_decode::access::get_field;
use discord_decode::error::Error;
use discord_decode::error::Shape;
use discord_decode::value::Mapping;
use discord_decode::value::Value;

fn text(s: &str) -> Value {
    Value::Text(s.to_string())
}

fn every_kind_of_value() -> Vec<Value> {
    vec![
        Value::Null,
        Value::Bool(true),
        Value::Integer(5),
        Value::Float(1.5f64.to_bits()),
        text("five"),
        Value::Sequence(vec![Value::Integer(5)]),
        Value::Mapping(Mapping::new()),
    ]
}

#[test]
fn mapping_starts_empty() {
    let m = Mapping::new();
    assert!(m.is_empty());
    assert!(!m.contains_key("id"));
    assert_eq!(m.get("id"), None);
    assert_eq!(m.into_entries(), vec![]);
}

#[test]
fn mapping_len_counts_keys() {
    let mut m = Mapping::new();
    assert_eq!(m.len(), 0);
    m.insert("id".to_string(), Value::Integer(1));
    m.insert("name".to_string(), text("a"));
    assert_eq!(m.len(), 2);
    m.insert("id".to_string(), Value::Integer(2));
    assert_eq!(m.len(), 2);
    m.remove("name");
    assert_eq!(m.len(), 1);
}

#[test]
fn mapping_insert_then_get() {
    let mut m = Mapping::new();
    assert_eq!(m.insert("id".to_string(), Value::Integer(1)), None);
    assert_eq!(m.insert("name".to_string(), text("a")), None);
    assert!(!m.is_empty());
    assert!(m.contains_key("id"));
    assert!(m.contains_key("name"));
    assert!(!m.contains_key("nam"));
    assert_eq!(m.get("id"), Some(&Value::Integer(1)));
    assert_eq!(m.get("name"), Some(&text("a")));
}

#[test]
fn mapping_insert_replaces_the_value_of_a_key() {
    let mut m = Mapping::new();
    m.insert("id".to_string(), Value::Integer(1));
    m.insert("name".to_string(), text("a"));
    assert_eq!(m.insert("id".to_string(), Value::Integer(2)), Some(Value::Integer(1)));
    assert_eq!(m.get("id"), Some(&Value::Integer(2)));
    assert_eq!(m.get("name"), Some(&text("a")));
    let entries = m.into_entries();
    assert_eq!(entries.len(), 2);
}

#[test]
fn mapping_remove_takes_the_value_out() {
    let mut m = Mapping::new();
    m.insert("id".to_string(), Value::Integer(1));
    m.insert("name".to_string(), text("a"));
    m.insert("bot".to_string(), Value::Bool(false));
    assert_eq!(m.remove("name"), Some(text("a")));
    assert_eq!(m.remove("name"), None);
    assert!(!m.contains_key("name"));
    assert_eq!(m.get("id"), Some(&Value::Integer(1)));
    assert_eq!(m.get("bot"), Some(&Value::Bool(false)));
    assert_eq!(m.remove("missing"), None);
}

#[test]
fn mapping_entries_keep_their_order() {
    let mut m = Mapping::new();
    m.insert("b".to_string(), Value::Integer(1));
    m.insert("a".to_string(), Value::Integer(2));
    m.insert("c".to_string(), Value::Integer(3));
    assert_eq!(
        m.into_entries(),
        vec![
            ("b".to_string(), Value::Integer(1)),
            ("a".to_string(), Value::Integer(2)),
            ("c".to_string(), Value::Integer(3)),
        ]
    );
}

#[test]
fn get_field_consumes_the_field() {
    let mut m = Mapping::new();
    m.insert("id".to_string(), Value::Integer(1));
    m.insert("name".to_string(), text("a"));
    assert_eq!(get_field(&mut m, "id"), Ok(Value::Integer(1)));
    assert!(!m.contains_key("id"));
    assert!(m.contains_key("name"));
    assert_eq!(get_field(&mut m, "id"), Err(Error::MissingField("id")));
}

#[test]
fn get_field_of_an_absent_key() {
    let mut m = Mapping::new();
    assert_eq!(get_field(&mut m, "id"), Err(Error::MissingField("id")));
    m.insert("name".to_string(), text("a"));
    assert_eq!(get_field(&mut m, "id"), Err(Error::MissingField("id")));
    assert!(m.contains_key("name"));
}

#[test]
fn get_field_hands_out_null_as_a_value() {
    let mut m = Mapping::new();
    m.insert("avatar".to_string(), Value::Null);
    assert_eq!(get_field(&mut m, "avatar"), Ok(Value::Null));
}

#[test]
fn expect_string_takes_strings_only() {
    assert_eq!(expect_string(text("five")), Ok("five".to_string()));
    assert_eq!(expect_string(text("")), Ok(String::new()));
    for value in every_kind_of_value() {
        if let Value::Text(_) = value {
            continue;
        }
        assert_eq!(expect_string(value), Err(Error::TypeMismatch(Shape::Text, None)));
    }
}

#[test]
fn expect_bool_takes_booleans_only() {
    assert_eq!(expect_bool(Value::Bool(true)), Ok(true));
    assert_eq!(expect_bool(Value::Bool(false)), Ok(false));
    for value in every_kind_of_value() {
        if let Value::Bool(_) = value {
            continue;
        }
        assert_eq!(expect_bool(value), Err(Error::TypeMismatch(Shape::Boolean, None)));
    }
}

#[test]
fn expect_u64_takes_integers_in_range() {
    assert_eq!(expect_u64(Value::Integer(0)), Ok(0));
    assert_eq!(expect_u64(Value::Integer(5)), Ok(5));
    assert_eq!(expect_u64(Value::Integer(u64::MAX as i128)), Ok(u64::MAX));
    assert_eq!(
        expect_u64(Value::Integer(u64::MAX as i128 + 1)),
        Err(Error::TypeMismatch(Shape::Unsigned64, None))
    );
    assert_eq!(expect_u64(Value::Integer(-1)), Err(Error::TypeMismatch(Shape::Unsigned64, None)));
    for value in every_kind_of_value() {
        if let Value::Integer(_) = value {
            continue;
        }
        assert_eq!(expect_u64(value), Err(Error::TypeMismatch(Shape::Unsigned64, None)));
    }
}

#[test]
fn expect_u64_does_not_read_numerals() {
    assert_eq!(expect_u64(text("5")), Err(Error::TypeMismatch(Shape::Unsigned64, None)));
}

#[test]
fn expect_i64_takes_integers_in_range() {
    assert_eq!(expect_i64(Value::Integer(0)), Ok(0));
    assert_eq!(expect_i64(Value::Integer(-1)), Ok(-1));
    assert_eq!(expect_i64(Value::Integer(i64::MAX as i128)), Ok(i64::MAX));
    assert_eq!(expect_i64(Value::Integer(i64::MIN as i128)), Ok(i64::MIN));
    assert_eq!(
        expect_i64(Value::Integer(i64::MAX as i128 + 1)),
        Err(Error::TypeMismatch(Shape::Signed64, None))
    );
    assert_eq!(
        expect_i64(Value::Integer(i64::MIN as i128 - 1)),
        Err(Error::TypeMismatch(Shape::Signed64, None))
    );
    for value in every_kind_of_value() {
        if let Value::Integer(_) = value {
            continue;
        }
        assert_eq!(expect_i64(value), Err(Error::TypeMismatch(Shape::Signed64, None)));
    }
}

#[test]
fn expect_map_takes_mappings_only() {
    let mut m = Mapping::new();
    m.insert("id".to_string(), Value::Integer(1));
    let got = expect_map(Value::Mapping(m)).unwrap();
    assert_eq!(got.get("id"), Some(&Value::Integer(1)));
    for value in every_kind_of_value() {
        if let Value::Mapping(_) = value {
            continue;
        }
        assert_eq!(expect_map(value), Err(Error::TypeMismatch(Shape::Mapping, None)));
    }
}

#[test]
fn expect_sequence_takes_sequences_only() {
    assert_eq!(
        expect_sequence(Value::Sequence(vec![Value::Null, Value::Integer(1)])),
        Ok(vec![Value::Null, Value::Integer(1)])
    );
    assert_eq!(expect_sequence(Value::Sequence(vec![])), Ok(vec![]));
    for value in every_kind_of_value() {
        if let Value::Sequence(_) = value {
            continue;
        }
        assert_eq!(expect_sequence(value), Err(Error::TypeMismatch(Shape::Sequence, None)));
    }
}

#[test]
fn error_at_names_the_field_of_a_bare_mismatch() {
    assert_eq!(
        Error::TypeMismatch(Shape::Text, None).at("avatar"),
        Error::TypeMismatch(Shape::Text, Some("avatar"))
    );
}

#[test]
fn error_at_nests_every_other_error() {
    assert_eq!(
        Error::MissingField("id").at("author"),
        Error::NestedDecodeFailure("author", Box::new(Error::MissingField("id")))
    );
    assert_eq!(
        Error::TypeMismatch(Shape::Text, Some("name")).at("author"),
        Error::NestedDecodeFailure(
            "author",
            Box::new(Error::TypeMismatch(Shape::Text, Some("name")))
        )
    );
    assert_eq!(
        Error::NestedDecodeFailure("a", Box::new(Error::MissingField("id"))).at("b"),
        Error::NestedDecodeFailure(
            "b",
            Box::new(Error::NestedDecodeFailure("a", Box::new(Error::MissingField("id"))))
        )
    );
}

#[test]
fn shape_names() {
    assert_eq!(Shape::Boolean.name(), "bool");
    assert_eq!(Shape::Unsigned32.name(), "u32");
    assert_eq!(Shape::Unsigned64.name(), "u64");
    assert_eq!(Shape::Signed64.name(), "i64");
    assert_eq!(Shape::Text.name(), "string");
    assert_eq!(Shape::Sequence.name(), "sequence");
    assert_eq!(Shape::NonEmpty.name(), "non-empty sequence");
    assert_eq!(Shape::Pair.name(), "pair");
    assert_eq!(Shape::Mapping.name(), "map");
    assert_eq!(Shape::Identifier.name(), "identifier");
    assert_eq!(Shape::Discriminator.name(), "discriminator");
}
