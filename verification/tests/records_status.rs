use discord_decode::decode::Decode;
use discord_decode::error::Error;
use discord_decode::error::Shape;
use discord_decode::kinds::IncidentStatus;
use discord_decode::records::status::AffectedComponent;
use discord_decode::records::status::Incident;
use discord_decode::records::status::IncidentUpdate;
use discord_decode::records::status::Maintenance;
use discord_decode::value::Mapping;
use discord_decode::value::Value;

fn text(s: &str) -> Value {
    Value::Text(s.to_string())
}

fn mapping(entries: Vec<(&str, Value)>) -> Mapping {
    let mut m = Mapping::new();
    for (key, value) in entries {
        m.insert(key.to_string(), value);
    }
    m
}

fn minimal_affected_component() -> Mapping {
    mapping(vec![
        ("name", text("name")),
    ])
}

fn expected_minimal_affected_component() -> AffectedComponent {
    AffectedComponent {
        name: "name".to_string(),
    }
}

fn minimal_incident_update() -> Mapping {
    mapping(vec![
        (
            "affected_components",
            Value::Sequence(vec![Value::Mapping(minimal_affected_component())]),
        ),
        ("body", text("body")),
        ("created_at", text("created_at")),
        ("display_at", text("display_at")),
        ("id", text("id")),
        ("incident_id", text("incident_id")),
        ("status", text("identified")),
        ("updated_at", text("updated_at")),
    ])
}

fn expected_minimal_incident_update() -> IncidentUpdate {
    IncidentUpdate {
        affected_components: vec![expected_minimal_affected_component()],
        body: "body".to_string(),
        created_at: "created_at".to_string(),
        display_at: "display_at".to_string(),
        id: "id".to_string(),
        incident_id: "incident_id".to_string(),
        status: IncidentStatus::Identified,
        updated_at: "updated_at".to_string(),
    }
}

fn minimal_incident() -> Mapping {
    mapping(vec![
        ("created_at", text("created_at")),
        ("id", text("id")),
        ("impact", text("impact")),
        ("incident_updates", Value::Sequence(vec![Value::Mapping(minimal_incident_update())])),
        ("name", text("name")),
        ("page_id", text("page_id")),
        ("short_link", text("short_link")),
        ("status", text("status")),
        ("updated_at", text("updated_at")),
    ])
}

fn expected_minimal_incident() -> Incident {
    Incident {
        created_at: "created_at".to_string(),
        id: "id".to_string(),
        impact: "impact".to_string(),
        incident_updates: vec![expected_minimal_incident_update()],
        monitoring_at: None,
        name: "name".to_string(),
        page_id: "page_id".to_string(),
        resolved_at: None,
        short_link: "short_link".to_string(),
        status: "status".to_string(),
        updated_at: "updated_at".to_string(),
    }
}

fn minimal_maintenance() -> Mapping {
    mapping(vec![
        ("description", text("description")),
        ("id", text("id")),
        ("name", text("name")),
        ("start", text("start")),
        ("stop", text("stop")),
    ])
}

fn expected_minimal_maintenance() -> Maintenance {
    Maintenance {
        description: "description".to_string(),
        id: "id".to_string(),
        name: "name".to_string(),
        start: "start".to_string(),
        stop: "stop".to_string(),
    }
}

fn full_incident() -> Mapping {
    mapping(vec![
        ("created_at", text("created_at")),
        ("id", text("id")),
        ("impact", text("impact")),
        ("incident_updates", Value::Sequence(vec![Value::Mapping(minimal_incident_update())])),
        ("monitoring_at", text("monitoring_at")),
        ("name", text("name")),
        ("page_id", text("page_id")),
        ("resolved_at", text("resolved_at")),
        ("short_link", text("short_link")),
        ("status", text("status")),
        ("updated_at", text("updated_at")),
    ])
}

fn expected_full_incident() -> Incident {
    Incident {
        created_at: "created_at".to_string(),
        id: "id".to_string(),
        impact: "impact".to_string(),
        incident_updates: vec![expected_minimal_incident_update()],
        monitoring_at: Some("monitoring_at".to_string()),
        name: "name".to_string(),
        page_id: "page_id".to_string(),
        resolved_at: Some("resolved_at".to_string()),
        short_link: "short_link".to_string(),
        status: "status".to_string(),
        updated_at: "updated_at".to_string(),
    }
}

#[test]
fn affected_component_minimal_decodes() {
    assert_eq!(
        AffectedComponent::decode(Value::Mapping(minimal_affected_component())),
        Ok(expected_minimal_affected_component())
    );
}

#[test]
fn affected_component_ignores_unknown_fields() {
    let mut source = minimal_affected_component();
    source.insert("not_a_known_field".to_string(), Value::Integer(1));
    assert_eq!(
        AffectedComponent::decode(Value::Mapping(source)),
        Ok(expected_minimal_affected_component())
    );
}

#[test]
fn affected_component_missing_required_fields() {
    for key in ["name"] {
        let mut source = minimal_affected_component();
        assert!(source.remove(key).is_some());
        assert_eq!(
            AffectedComponent::decode(Value::Mapping(source)),
            Err(Error::MissingField(key))
        );
    }
}

#[test]
fn affected_component_from_no_mapping() {
    assert_eq!(
        AffectedComponent::decode(Value::Null),
        Err(Error::TypeMismatch(Shape::Mapping, None))
    );
}

#[test]
fn incident_update_minimal_decodes() {
    assert_eq!(
        IncidentUpdate::decode(Value::Mapping(minimal_incident_update())),
        Ok(expected_minimal_incident_update())
    );
}

#[test]
fn incident_update_ignores_unknown_fields() {
    let mut source = minimal_incident_update();
    source.insert("not_a_known_field".to_string(), Value::Integer(1));
    assert_eq!(
        IncidentUpdate::decode(Value::Mapping(source)),
        Ok(expected_minimal_incident_update())
    );
}

#[test]
fn incident_update_missing_required_fields() {
    let keys = [
        "affected_components",
        "body",
        "created_at",
        "display_at",
        "id",
        "incident_id",
        "status",
        "updated_at",
    ];
    for key in keys {
        let mut source = minimal_incident_update();
        assert!(source.remove(key).is_some());
        assert_eq!(IncidentUpdate::decode(Value::Mapping(source)), Err(Error::MissingField(key)));
    }
}

#[test]
fn incident_update_from_no_mapping() {
    assert_eq!(IncidentUpdate::decode(Value::Null), Err(Error::TypeMismatch(Shape::Mapping, None)));
}

#[test]
fn incident_minimal_decodes() {
    assert_eq!(
        Incident::decode(Value::Mapping(minimal_incident())),
        Ok(expected_minimal_incident())
    );
}

#[test]
fn incident_with_every_field_decodes() {
    assert_eq!(Incident::decode(Value::Mapping(full_incident())), Ok(expected_full_incident()));
}

#[test]
fn incident_ignores_unknown_fields() {
    let mut source = minimal_incident();
    source.insert("not_a_known_field".to_string(), Value::Integer(1));
    assert_eq!(Incident::decode(Value::Mapping(source)), Ok(expected_minimal_incident()));
}

#[test]
fn incident_missing_required_fields() {
    let keys = [
        "created_at",
        "id",
        "impact",
        "incident_updates",
        "name",
        "page_id",
        "short_link",
        "status",
        "updated_at",
    ];
    for key in keys {
        let mut source = minimal_incident();
        assert!(source.remove(key).is_some());
        assert_eq!(Incident::decode(Value::Mapping(source)), Err(Error::MissingField(key)));
    }
}

#[test]
fn incident_optional_fields_of_wrong_shape() {
    let cases = [
        ("monitoring_at", Shape::Text),
        ("resolved_at", Shape::Text),
    ];
    for (key, shape) in cases {
        let mut source = minimal_incident();
        source.insert(key.to_string(), Value::Null);
        assert_eq!(
            Incident::decode(Value::Mapping(source)),
            Err(Error::TypeMismatch(shape, Some(key)))
        );
    }
}

#[test]
fn incident_from_no_mapping() {
    assert_eq!(Incident::decode(Value::Null), Err(Error::TypeMismatch(Shape::Mapping, None)));
}

#[test]
fn maintenance_minimal_decodes() {
    assert_eq!(
        Maintenance::decode(Value::Mapping(minimal_maintenance())),
        Ok(expected_minimal_maintenance())
    );
}

#[test]
fn maintenance_ignores_unknown_fields() {
    let mut source = minimal_maintenance();
    source.insert("not_a_known_field".to_string(), Value::Integer(1));
    assert_eq!(Maintenance::decode(Value::Mapping(source)), Ok(expected_minimal_maintenance()));
}

#[test]
fn maintenance_missing_required_fields() {
    for key in ["description", "id", "name", "start", "stop"] {
        let mut source = minimal_maintenance();
        assert!(source.remove(key).is_some());
        assert_eq!(Maintenance::decode(Value::Mapping(source)), Err(Error::MissingField(key)));
    }
}

#[test]
fn maintenance_from_no_mapping() {
    assert_eq!(Maintenance::decode(Value::Null), Err(Error::TypeMismatch(Shape::Mapping, None)));
}
