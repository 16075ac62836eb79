//! Records of the service status page.

use crate::access::expect_map;
use crate::codec::Named;
use crate::decode::Decode;
use crate::decode::fails_with;
use crate::decode::optional;
use crate::decode::optional_field;
use crate::decode::required;
use crate::decode::required_field;
use crate::error::Error;
use crate::error::Shape;
use crate::kinds::IncidentStatus;
use crate::value::Value;
use vstd::prelude::*;

verus! {

/// A component of the service that an incident affected.
#[derive(Clone, Debug, PartialEq, Eq)]
pub struct AffectedComponent {
    /// The name of the component.
    pub name: String,
}

/// The model of an affected component: what the record holds, as a mathematical value.
pub struct AffectedComponentModel {
    pub name: Seq<char>,
}

impl DeepView for AffectedComponent {
    type V = AffectedComponentModel;

    open spec fn deep_view(&self) -> AffectedComponentModel {
        AffectedComponentModel {
            name: self.name.deep_view(),
        }
    }
}

impl AffectedComponent {
    /// What a mapping with the contents `source` gives as an affected component: the record put
    /// together from its fields, or the error of the first field, in the order written here,
    /// that fails.
    pub open spec fn from_fields(source: Map<Seq<char>, Value>) -> Result<
        AffectedComponentModel,
        Error,
    > {
        let name = required_field::<String>(source, "name");
        if name is Err {
            Err(name->Err_0)
        } else {
            Ok(
                AffectedComponentModel {
                    name: name->Ok_0,
                },
            )
        }
    }

    /// What tells the field names of an affected component apart: their lengths and, among
    /// names of one length, their letters.
    pub proof fn lemma_field_names()
        ensures
            "name"@.len() == 4,
    {
        reveal_strlit("name");
    }

    /// A mapping that holds the required fields of an affected component and no other, each
    /// with a value that decodes, is decoded.
    pub proof fn lemma_minimal_decodes(source: Map<Seq<char>, Value>)
        requires
            source.dom() =~= set!["name"@],
            String::decoded(source["name"@]) is Ok,
        ensures
            AffectedComponent::from_fields(source) is Ok,
    {
        AffectedComponent::lemma_field_names();
    }

    /// Without one of its required fields, a mapping that was decoded as an affected component
    /// fails, and the error names exactly the field that is gone.
    pub proof fn lemma_missing_required_field(source: Map<Seq<char>, Value>)
        requires
            AffectedComponent::from_fields(source) is Ok,
        ensures
            fails_with(
                AffectedComponent::from_fields(source.remove("name"@)),
                Error::MissingField("name"),
            ),
    {
        AffectedComponent::lemma_field_names();
    }

    /// A field that an affected component does not have changes nothing: it is passed over,
    /// whatever it holds.
    pub proof fn lemma_unknown_field_ignored(
        source: Map<Seq<char>, Value>,
        key: Seq<char>,
        value: Value,
    )
        requires
            key != "name"@,
        ensures
            AffectedComponent::from_fields(source.insert(key, value))
                == AffectedComponent::from_fields(source),
    {
    }
}

impl Decode for AffectedComponent {
    open spec fn decoded(value: Value) -> Result<AffectedComponentModel, Error> {
        match value {
            Value::Mapping(source) => AffectedComponent::from_fields(source@),
            _ => Err(Error::mismatch(Shape::Mapping)),
        }
    }

    fn decode(value: Value) -> (r: Result<AffectedComponent, Error>) {
        let mut source = expect_map(value)?;
        proof {
            AffectedComponent::lemma_field_names();
        }
        let name = required::<String>(&mut source, "name")?;
        Ok(
            AffectedComponent {
                name,
            },
        )
    }
}

/// One update to an incident on the status page.
#[derive(Clone, Debug, PartialEq, Eq)]
pub struct IncidentUpdate {
    /// The components that the incident affected at the time of the update.
    pub affected_components: Vec<AffectedComponent>,
    /// The text of the update.
    pub body: String,
    /// When the update was written.
    pub created_at: String,
    /// The time that the update is shown under.
    pub display_at: String,
    /// The id of the update.
    pub id: String,
    /// The id of the incident that the update belongs to.
    pub incident_id: String,
    /// The state of the incident at the update.
    pub status: IncidentStatus,
    /// When the update was last changed.
    pub updated_at: String,
}

/// The model of an incident update: what the record holds, as a mathematical value.
pub struct IncidentUpdateModel {
    pub affected_components: Seq<AffectedComponentModel>,
    pub body: Seq<char>,
    pub created_at: Seq<char>,
    pub display_at: Seq<char>,
    pub id: Seq<char>,
    pub incident_id: Seq<char>,
    pub status: IncidentStatus,
    pub updated_at: Seq<char>,
}

impl DeepView for IncidentUpdate {
    type V = IncidentUpdateModel;

    open spec fn deep_view(&self) -> IncidentUpdateModel {
        IncidentUpdateModel {
            affected_components: self.affected_components.deep_view(),
            body: self.body.deep_view(),
            created_at: self.created_at.deep_view(),
            display_at: self.display_at.deep_view(),
            id: self.id.deep_view(),
            incident_id: self.incident_id.deep_view(),
            status: self.status.deep_view(),
            updated_at: self.updated_at.deep_view(),
        }
    }
}

impl IncidentUpdate {
    /// What a mapping with the contents `source` gives as an incident update: the record put
    /// together from its fields, or the error of the first field, in the order written here,
    /// that fails.
    pub open spec fn from_fields(source: Map<Seq<char>, Value>) -> Result<
        IncidentUpdateModel,
        Error,
    > {
        let affected_components = required_field::<Vec<AffectedComponent>>(
            source,
            "affected_components",
        );
        let body = required_field::<String>(source, "body");
        let created_at = required_field::<String>(source, "created_at");
        let display_at = required_field::<String>(source, "display_at");
        let id = required_field::<String>(source, "id");
        let incident_id = required_field::<String>(source, "incident_id");
        let status = required_field::<Named<IncidentStatus>>(source, "status");
        let updated_at = required_field::<String>(source, "updated_at");
        if affected_components is Err {
            Err(affected_components->Err_0)
        } else if body is Err {
            Err(body->Err_0)
        } else if created_at is Err {
            Err(created_at->Err_0)
        } else if display_at is Err {
            Err(display_at->Err_0)
        } else if id is Err {
            Err(id->Err_0)
        } else if incident_id is Err {
            Err(incident_id->Err_0)
        } else if status is Err {
            Err(status->Err_0)
        } else if updated_at is Err {
            Err(updated_at->Err_0)
        } else {
            Ok(
                IncidentUpdateModel {
                    affected_components: affected_components->Ok_0,
                    body: body->Ok_0,
                    created_at: created_at->Ok_0,
                    display_at: display_at->Ok_0,
                    id: id->Ok_0,
                    incident_id: incident_id->Ok_0,
                    status: status->Ok_0,
                    updated_at: updated_at->Ok_0,
                },
            )
        }
    }

    /// What tells the field names of an incident update apart: their lengths and, among names
    /// of one length, their letters.
    pub proof fn lemma_field_names()
        ensures
            "affected_components"@.len() == 19,
            "body"@.len() == 4,
            "created_at"@.len() == 10,
            "display_at"@.len() == 10,
            "id"@.len() == 2,
            "incident_id"@.len() == 11,
            "status"@.len() == 6,
            "updated_at"@.len() == 10,
            "created_at"@[0] == 'c',
            "display_at"@[0] == 'd',
            "updated_at"@[0] == 'u',
    {
        reveal_strlit("affected_components");
        reveal_strlit("body");
        reveal_strlit("created_at");
        reveal_strlit("display_at");
        reveal_strlit("id");
        reveal_strlit("incident_id");
        reveal_strlit("status");
        reveal_strlit("updated_at");
    }

    /// A mapping that holds the required fields of an incident update and no other, each with a
    /// value that decodes, is decoded.
    pub proof fn lemma_minimal_decodes(source: Map<Seq<char>, Value>)
        requires
            source.dom() =~= set![
                "affected_components"@,
                "body"@,
                "created_at"@,
                "display_at"@,
                "id"@,
                "incident_id"@,
                "status"@,
                "updated_at"@,
            ],
            <Vec<AffectedComponent>>::decoded(source["affected_components"@]) is Ok,
            String::decoded(source["body"@]) is Ok,
            String::decoded(source["created_at"@]) is Ok,
            String::decoded(source["display_at"@]) is Ok,
            String::decoded(source["id"@]) is Ok,
            String::decoded(source["incident_id"@]) is Ok,
            <Named<IncidentStatus>>::decoded(source["status"@]) is Ok,
            String::decoded(source["updated_at"@]) is Ok,
        ensures
            IncidentUpdate::from_fields(source) is Ok,
    {
        IncidentUpdate::lemma_field_names();
    }

    /// Without one of its required fields, a mapping that was decoded as an incident update
    /// fails, and the error names exactly the field that is gone.
    pub proof fn lemma_missing_required_field(source: Map<Seq<char>, Value>)
        requires
            IncidentUpdate::from_fields(source) is Ok,
        ensures
            fails_with(
                IncidentUpdate::from_fields(source.remove("affected_components"@)),
                Error::MissingField("affected_components"),
            ),
            fails_with(
                IncidentUpdate::from_fields(source.remove("body"@)),
                Error::MissingField("body"),
            ),
            fails_with(
                IncidentUpdate::from_fields(source.remove("created_at"@)),
                Error::MissingField("created_at"),
            ),
            fails_with(
                IncidentUpdate::from_fields(source.remove("display_at"@)),
                Error::MissingField("display_at"),
            ),
            fails_with(
                IncidentUpdate::from_fields(source.remove("id"@)),
                Error::MissingField("id"),
            ),
            fails_with(
                IncidentUpdate::from_fields(source.remove("incident_id"@)),
                Error::MissingField("incident_id"),
            ),
            fails_with(
                IncidentUpdate::from_fields(source.remove("status"@)),
                Error::MissingField("status"),
            ),
            fails_with(
                IncidentUpdate::from_fields(source.remove("updated_at"@)),
                Error::MissingField("updated_at"),
            ),
    {
        IncidentUpdate::lemma_field_names();
    }

    /// A field that an incident update does not have changes nothing: it is passed over,
    /// whatever it holds.
    pub proof fn lemma_unknown_field_ignored(
        source: Map<Seq<char>, Value>,
        key: Seq<char>,
        value: Value,
    )
        requires
            key != "affected_components"@,
            key != "body"@,
            key != "created_at"@,
            key != "display_at"@,
            key != "id"@,
            key != "incident_id"@,
            key != "status"@,
            key != "updated_at"@,
        ensures
            IncidentUpdate::from_fields(source.insert(key, value))
                == IncidentUpdate::from_fields(source),
    {
    }
}

impl Decode for IncidentUpdate {
    open spec fn decoded(value: Value) -> Result<IncidentUpdateModel, Error> {
        match value {
            Value::Mapping(source) => IncidentUpdate::from_fields(source@),
            _ => Err(Error::mismatch(Shape::Mapping)),
        }
    }

    fn decode(value: Value) -> (r: Result<IncidentUpdate, Error>) {
        let mut source = expect_map(value)?;
        proof {
            IncidentUpdate::lemma_field_names();
        }
        let affected_components = required::<Vec<AffectedComponent>>(
            &mut source,
            "affected_components",
        )?;
        let body = required::<String>(&mut source, "body")?;
        let created_at = required::<String>(&mut source, "created_at")?;
        let display_at = required::<String>(&mut source, "display_at")?;
        let id = required::<String>(&mut source, "id")?;
        let incident_id = required::<String>(&mut source, "incident_id")?;
        let status = required::<Named<IncidentStatus>>(&mut source, "status")?;
        let updated_at = required::<String>(&mut source, "updated_at")?;
        Ok(
            IncidentUpdate {
                affected_components,
                body,
                created_at,
                display_at,
                id,
                incident_id,
                status: status.0,
                updated_at,
            },
        )
    }
}

/// An incident on the status page, ongoing or past.
#[derive(Clone, Debug, PartialEq, Eq)]
pub struct Incident {
    /// When the incident was opened.
    pub created_at: String,
    /// The id of the incident.
    pub id: String,
    /// How severe the incident is.
    pub impact: String,
    /// The updates to the incident.
    pub incident_updates: Vec<IncidentUpdate>,
    /// Since when a fix has been watched, if one has.
    pub monitoring_at: Option<String>,
    /// The title of the incident.
    pub name: String,
    /// The id of the status page.
    pub page_id: String,
    /// When the incident was resolved, if it has been.
    pub resolved_at: Option<String>,
    /// A short link to the incident.
    pub short_link: String,
    /// The state of the incident.
    pub status: String,
    /// When the incident was last changed.
    pub updated_at: String,
}

/// The model of an incident: what the record holds, as a mathematical value.
pub struct IncidentModel {
    pub created_at: Seq<char>,
    pub id: Seq<char>,
    pub impact: Seq<char>,
    pub incident_updates: Seq<IncidentUpdateModel>,
    pub monitoring_at: Option<Seq<char>>,
    pub name: Seq<char>,
    pub page_id: Seq<char>,
    pub resolved_at: Option<Seq<char>>,
    pub short_link: Seq<char>,
    pub status: Seq<char>,
    pub updated_at: Seq<char>,
}

impl DeepView for Incident {
    type V = IncidentModel;

    open spec fn deep_view(&self) -> IncidentModel {
        IncidentModel {
            created_at: self.created_at.deep_view(),
            id: self.id.deep_view(),
            impact: self.impact.deep_view(),
            incident_updates: self.incident_updates.deep_view(),
            monitoring_at: self.monitoring_at.deep_view(),
            name: self.name.deep_view(),
            page_id: self.page_id.deep_view(),
            resolved_at: self.resolved_at.deep_view(),
            short_link: self.short_link.deep_view(),
            status: self.status.deep_view(),
            updated_at: self.updated_at.deep_view(),
        }
    }
}

impl Incident {
    /// What a mapping with the contents `source` gives as an incident: the record put together
    /// from its fields, or the error of the first field, in the order written here, that fails.
    pub open spec fn from_fields(source: Map<Seq<char>, Value>) -> Result<IncidentModel, Error> {
        let created_at = required_field::<String>(source, "created_at");
        let id = required_field::<String>(source, "id");
        let impact = required_field::<String>(source, "impact");
        let incident_updates = required_field::<Vec<IncidentUpdate>>(source, "incident_updates");
        let monitoring_at = optional_field::<String>(source, "monitoring_at");
        let name = required_field::<String>(source, "name");
        let page_id = required_field::<String>(source, "page_id");
        let resolved_at = optional_field::<String>(source, "resolved_at");
        let short_link = required_field::<String>(source, "short_link");
        let status = required_field::<String>(source, "status");
        let updated_at = required_field::<String>(source, "updated_at");
        if created_at is Err {
            Err(created_at->Err_0)
        } else if id is Err {
            Err(id->Err_0)
        } else if impact is Err {
            Err(impact->Err_0)
        } else if incident_updates is Err {
            Err(incident_updates->Err_0)
        } else if monitoring_at is Err {
            Err(monitoring_at->Err_0)
        } else if name is Err {
            Err(name->Err_0)
        } else if page_id is Err {
            Err(page_id->Err_0)
        } else if resolved_at is Err {
            Err(resolved_at->Err_0)
        } else if short_link is Err {
            Err(short_link->Err_0)
        } else if status is Err {
            Err(status->Err_0)
        } else if updated_at is Err {
            Err(updated_at->Err_0)
        } else {
            Ok(
                IncidentModel {
                    created_at: created_at->Ok_0,
                    id: id->Ok_0,
                    impact: impact->Ok_0,
                    incident_updates: incident_updates->Ok_0,
                    monitoring_at: monitoring_at->Ok_0,
                    name: name->Ok_0,
                    page_id: page_id->Ok_0,
                    resolved_at: resolved_at->Ok_0,
                    short_link: short_link->Ok_0,
                    status: status->Ok_0,
                    updated_at: updated_at->Ok_0,
                },
            )
        }
    }

    /// What tells the field names of an incident apart: their lengths and, among names of one
    /// length, their letters.
    pub proof fn lemma_field_names()
        ensures
            "created_at"@.len() == 10,
            "id"@.len() == 2,
            "impact"@.len() == 6,
            "incident_updates"@.len() == 16,
            "monitoring_at"@.len() == 13,
            "name"@.len() == 4,
            "page_id"@.len() == 7,
            "resolved_at"@.len() == 11,
            "short_link"@.len() == 10,
            "status"@.len() == 6,
            "updated_at"@.len() == 10,
            "impact"@[0] == 'i',
            "status"@[0] == 's',
            "created_at"@[0] == 'c',
            "short_link"@[0] == 's',
            "updated_at"@[0] == 'u',
    {
        reveal_strlit("created_at");
        reveal_strlit("id");
        reveal_strlit("impact");
        reveal_strlit("incident_updates");
        reveal_strlit("monitoring_at");
        reveal_strlit("name");
        reveal_strlit("page_id");
        reveal_strlit("resolved_at");
        reveal_strlit("short_link");
        reveal_strlit("status");
        reveal_strlit("updated_at");
    }

    /// A mapping that holds the required fields of an incident and no other, each with a value
    /// that decodes, is decoded.
    pub proof fn lemma_minimal_decodes(source: Map<Seq<char>, Value>)
        requires
            source.dom() =~= set![
                "created_at"@,
                "id"@,
                "impact"@,
                "incident_updates"@,
                "name"@,
                "page_id"@,
                "short_link"@,
                "status"@,
                "updated_at"@,
            ],
            String::decoded(source["created_at"@]) is Ok,
            String::decoded(source["id"@]) is Ok,
            String::decoded(source["impact"@]) is Ok,
            <Vec<IncidentUpdate>>::decoded(source["incident_updates"@]) is Ok,
            String::decoded(source["name"@]) is Ok,
            String::decoded(source["page_id"@]) is Ok,
            String::decoded(source["short_link"@]) is Ok,
            String::decoded(source["status"@]) is Ok,
            String::decoded(source["updated_at"@]) is Ok,
        ensures
            Incident::from_fields(source) is Ok,
    {
        Incident::lemma_field_names();
    }

    /// Without one of its required fields, a mapping that was decoded as an incident fails, and
    /// the error names exactly the field that is gone.
    pub proof fn lemma_missing_required_field(source: Map<Seq<char>, Value>)
        requires
            Incident::from_fields(source) is Ok,
        ensures
            fails_with(
                Incident::from_fields(source.remove("created_at"@)),
                Error::MissingField("created_at"),
            ),
            fails_with(
                Incident::from_fields(source.remove("id"@)),
                Error::MissingField("id"),
            ),
            fails_with(
                Incident::from_fields(source.remove("impact"@)),
                Error::MissingField("impact"),
            ),
            fails_with(
                Incident::from_fields(source.remove("incident_updates"@)),
                Error::MissingField("incident_updates"),
            ),
            fails_with(
                Incident::from_fields(source.remove("name"@)),
                Error::MissingField("name"),
            ),
            fails_with(
                Incident::from_fields(source.remove("page_id"@)),
                Error::MissingField("page_id"),
            ),
            fails_with(
                Incident::from_fields(source.remove("short_link"@)),
                Error::MissingField("short_link"),
            ),
            fails_with(
                Incident::from_fields(source.remove("status"@)),
                Error::MissingField("status"),
            ),
            fails_with(
                Incident::from_fields(source.remove("updated_at"@)),
                Error::MissingField("updated_at"),
            ),
    {
        Incident::lemma_field_names();
    }

    /// A field that an incident does not have changes nothing: it is passed over, whatever it
    /// holds.
    pub proof fn lemma_unknown_field_ignored(
        source: Map<Seq<char>, Value>,
        key: Seq<char>,
        value: Value,
    )
        requires
            key != "created_at"@,
            key != "id"@,
            key != "impact"@,
            key != "incident_updates"@,
            key != "monitoring_at"@,
            key != "name"@,
            key != "page_id"@,
            key != "resolved_at"@,
            key != "short_link"@,
            key != "status"@,
            key != "updated_at"@,
        ensures
            Incident::from_fields(source.insert(key, value)) == Incident::from_fields(source),
    {
    }

    /// An optional field of an incident that is absent is decoded as absent, or as its default.
    /// One that is present with a value of the wrong shape is not taken for absent: the record
    /// fails with that mismatch, which names the field.
    pub proof fn lemma_optional_fields(
        source: Map<Seq<char>, Value>,
        wrong: Value,
        expected: Shape,
    )
        requires
            Incident::from_fields(source) is Ok,
        ensures
            !source.contains_key("monitoring_at"@)
                ==> Incident::from_fields(source)->Ok_0.monitoring_at is None,
            fails_with(String::decoded(wrong), Error::mismatch(expected)) ==> fails_with(
                Incident::from_fields(source.insert("monitoring_at"@, wrong)),
                Error::TypeMismatch(expected, Some("monitoring_at")),
            ),
            !source.contains_key("resolved_at"@)
                ==> Incident::from_fields(source)->Ok_0.resolved_at is None,
            fails_with(String::decoded(wrong), Error::mismatch(expected)) ==> fails_with(
                Incident::from_fields(source.insert("resolved_at"@, wrong)),
                Error::TypeMismatch(expected, Some("resolved_at")),
            ),
    {
        Incident::lemma_field_names();
    }
}

impl Decode for Incident {
    open spec fn decoded(value: Value) -> Result<IncidentModel, Error> {
        match value {
            Value::Mapping(source) => Incident::from_fields(source@),
            _ => Err(Error::mismatch(Shape::Mapping)),
        }
    }

    fn decode(value: Value) -> (r: Result<Incident, Error>) {
        let mut source = expect_map(value)?;
        proof {
            Incident::lemma_field_names();
        }
        let created_at = required::<String>(&mut source, "created_at")?;
        let id = required::<String>(&mut source, "id")?;
        let impact = required::<String>(&mut source, "impact")?;
        let incident_updates = required::<Vec<IncidentUpdate>>(&mut source, "incident_updates")?;
        let monitoring_at = optional::<String>(&mut source, "monitoring_at")?;
        let name = required::<String>(&mut source, "name")?;
        let page_id = required::<String>(&mut source, "page_id")?;
        let resolved_at = optional::<String>(&mut source, "resolved_at")?;
        let short_link = required::<String>(&mut source, "short_link")?;
        let status = required::<String>(&mut source, "status")?;
        let updated_at = required::<String>(&mut source, "updated_at")?;
        Ok(
            Incident {
                created_at,
                id,
                impact,
                incident_updates,
                monitoring_at,
                name,
                page_id,
                resolved_at,
                short_link,
                status,
                updated_at,
            },
        )
    }
}

/// A maintenance on the status page, active or scheduled.
#[derive(Clone, Debug, PartialEq, Eq)]
pub struct Maintenance {
    /// What the maintenance is about.
    pub description: String,
    /// The id of the maintenance.
    pub id: String,
    /// The title of the maintenance.
    pub name: String,
    /// When the maintenance starts.
    pub start: String,
    /// When the maintenance ends.
    pub stop: String,
}

/// The model of a maintenance: what the record holds, as a mathematical value.
pub struct MaintenanceModel {
    pub description: Seq<char>,
    pub id: Seq<char>,
    pub name: Seq<char>,
    pub start: Seq<char>,
    pub stop: Seq<char>,
}

impl DeepView for Maintenance {
    type V = MaintenanceModel;

    open spec fn deep_view(&self) -> MaintenanceModel {
        MaintenanceModel {
            description: self.description.deep_view(),
            id: self.id.deep_view(),
            name: self.name.deep_view(),
            start: self.start.deep_view(),
            stop: self.stop.deep_view(),
        }
    }
}

impl Maintenance {
    /// What a mapping with the contents `source` gives as a maintenance: the record put
    /// together from its fields, or the error of the first field, in the order written here,
    /// that fails.
    pub open spec fn from_fields(source: Map<Seq<char>, Value>) -> Result<MaintenanceModel, Error> {
        let description = required_field::<String>(source, "description");
        let id = required_field::<String>(source, "id");
        let name = required_field::<String>(source, "name");
        let start = required_field::<String>(source, "start");
        let stop = required_field::<String>(source, "stop");
        if description is Err {
            Err(description->Err_0)
        } else if id is Err {
            Err(id->Err_0)
        } else if name is Err {
            Err(name->Err_0)
        } else if start is Err {
            Err(start->Err_0)
        } else if stop is Err {
            Err(stop->Err_0)
        } else {
            Ok(
                MaintenanceModel {
                    description: description->Ok_0,
                    id: id->Ok_0,
                    name: name->Ok_0,
                    start: start->Ok_0,
                    stop: stop->Ok_0,
                },
            )
        }
    }

    /// What tells the field names of a maintenance apart: their lengths and, among names of one
    /// length, their letters.
    pub proof fn lemma_field_names()
        ensures
            "description"@.len() == 11,
            "id"@.len() == 2,
            "name"@.len() == 4,
            "start"@.len() == 5,
            "stop"@.len() == 4,
            "name"@[0] == 'n',
            "stop"@[0] == 's',
    {
        reveal_strlit("description");
        reveal_strlit("id");
        reveal_strlit("name");
        reveal_strlit("start");
        reveal_strlit("stop");
    }

    /// A mapping that holds the required fields of a maintenance and no other, each with a
    /// value that decodes, is decoded.
    pub proof fn lemma_minimal_decodes(source: Map<Seq<char>, Value>)
        requires
            source.dom() =~= set!["description"@, "id"@, "name"@, "start"@, "stop"@],
            String::decoded(source["description"@]) is Ok,
            String::decoded(source["id"@]) is Ok,
            String::decoded(source["name"@]) is Ok,
            String::decoded(source["start"@]) is Ok,
            String::decoded(source["stop"@]) is Ok,
        ensures
            Maintenance::from_fields(source) is Ok,
    {
        Maintenance::lemma_field_names();
    }

    /// Without one of its required fields, a mapping that was decoded as a maintenance fails,
    /// and the error names exactly the field that is gone.
    pub proof fn lemma_missing_required_field(source: Map<Seq<char>, Value>)
        requires
            Maintenance::from_fields(source) is Ok,
        ensures
            fails_with(
                Maintenance::from_fields(source.remove("description"@)),
                Error::MissingField("description"),
            ),
            fails_with(
                Maintenance::from_fields(source.remove("id"@)),
                Error::MissingField("id"),
            ),
            fails_with(
                Maintenance::from_fields(source.remove("name"@)),
                Error::MissingField("name"),
            ),
            fails_with(
                Maintenance::from_fields(source.remove("start"@)),
                Error::MissingField("start"),
            ),
            fails_with(
                Maintenance::from_fields(source.remove("stop"@)),
                Error::MissingField("stop"),
            ),
    {
        Maintenance::lemma_field_names();
    }

    /// A field that a maintenance does not have changes nothing: it is passed over, whatever it
    /// holds.
    pub proof fn lemma_unknown_field_ignored(
        source: Map<Seq<char>, Value>,
        key: Seq<char>,
        value: Value,
    )
        requires
            key != "description"@,
            key != "id"@,
            key != "name"@,
            key != "start"@,
            key != "stop"@,
        ensures
            Maintenance::from_fields(source.insert(key, value)) == Maintenance::from_fields(source),
    {
    }
}

impl Decode for Maintenance {
    open spec fn decoded(value: Value) -> Result<MaintenanceModel, Error> {
        match value {
            Value::Mapping(source) => Maintenance::from_fields(source@),
            _ => Err(Error::mismatch(Shape::Mapping)),
        }
    }

    fn decode(value: Value) -> (r: Result<Maintenance, Error>) {
        let mut source = expect_map(value)?;
        proof {
            Maintenance::lemma_field_names();
        }
        let description = required::<String>(&mut source, "description")?;
        let id = required::<String>(&mut source, "id")?;
        let name = required::<String>(&mut source, "name")?;
        let start = required::<String>(&mut source, "start")?;
        let stop = required::<String>(&mut source, "stop")?;
        Ok(
            Maintenance {
                description,
                id,
                name,
                start,
                stop,
            },
        )
    }
}

} // verus!
