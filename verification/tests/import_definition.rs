use journal::definition::{
    BoolTemplate, EnumeratedTemplate, FieldValueTemplate, NumberTemplate, TextTemplate,
};
use journal::errors::ParsingError;
use journal::fs_service::FileSystemEventsService;
use journal::json::{JsonValue, Number};
use journal::service::EventsService;
use journal::views::EnumerationOption;

const PROJECT: &str = "00000000-0000-0000-0000-0000000000aa";
const BAKE: &str = "00000000-0000-0000-0000-0000000000b1";
const KNEAD: &str = "00000000-0000-0000-0000-0000000000e1";
const PROOF_DOUGH: &str = "00000000-0000-0000-0000-0000000000e2";

fn bread() -> String {
    format!(
        r#"{{
  "project-uuid": "{PROJECT}",
  "event-templates": [
    {{
      "event-template-uuid": "{KNEAD}",
      "trace-template-uuid": "{BAKE}",
      "name": "Knead",
      "fields": [
        {{"type": "Number", "label": "Flour Weight", "default-value": 1.5}},
        {{"type": "Text", "label": "Notes", "name": "remarks", "default-value": "none"}},
        {{"type": "Boolean", "label": "By Hand", "default-value": true}},
        {{"type": "Enumerated", "label": "Flour", "default-value": "Whole Wheat",
          "options": [{{"label": "White"}}, {{"label": "Whole Wheat", "name": "ww"}}]}},
        {{"type": "Number", "label": "Water"}}
      ]
    }},
    {{
      "event-template-uuid": "{PROOF_DOUGH}",
      "trace-template-uuid": "{BAKE}"
    }}
  ],
  "trace-templates": [
    {{
      "trace-template-uuid": "{BAKE}",
      "name": "Bake",
      "transitions": [{{"from": "{KNEAD}", "to": ["{PROOF_DOUGH}"]}}]
    }}
  ]
}}"#
    )
}

fn doc(text: &str) -> JsonValue {
    FileSystemEventsService::parse_document(text).expect("the text is JSON")
}

fn message<T: std::fmt::Debug>(outcome: Result<T, ParsingError>) -> String {
    outcome.expect_err("the parser refuses this").message
}

fn option(name: &str, label: &str) -> EnumerationOption {
    EnumerationOption { name: name.to_string(), label: label.to_string() }
}

#[test]
fn import_brings_the_project_and_its_templates() {
    let mut service = FileSystemEventsService::default();
    service.import_definition("Bread".to_string(), &bread()).expect("the definition is sound");

    assert_eq!(service.projects.len(), 1);
    let project = &service.projects[&0xaa];
    assert_eq!(project.project_uuid, 0xaa);
    assert_eq!(project.name, "Bread");
    assert!(project.created_at > 1_600_000_000_000);

    assert_eq!(service.trace_templates.len(), 1);
    let bake = &service.trace_templates[&0xb1];
    assert_eq!(bake.trace_template_uuid, 0xb1);
    assert_eq!(bake.project_uuid, 0xaa);
    assert_eq!(bake.name, "Bake");
    assert_eq!(bake.created_at, project.created_at);
    assert_eq!(bake.flow.len(), 1);
    assert_eq!(bake.flow[0].from, 0xe1);
    assert_eq!(bake.flow[0].to, vec![0xe2]);

    assert_eq!(service.event_templates.len(), 2);
    let knead = &service.event_templates[&0xe1];
    assert_eq!(knead.event_template_uuid, 0xe1);
    assert_eq!(knead.trace_template_uuid, 0xb1);
    assert_eq!(knead.name, "Knead");
    assert!(knead.default_tags.is_empty());
    assert_eq!(knead.created_at, project.created_at);
    assert_eq!(knead.fields.len(), 5);

    assert_eq!(knead.fields[0].name, "flour-weight");
    assert_eq!(knead.fields[0].label, "Flour Weight");
    assert_eq!(
        knead.fields[0].value,
        FieldValueTemplate::Number(NumberTemplate {
            default_value: Some(Number { bits: 1.5f64.to_bits() })
        })
    );
    assert_eq!(knead.fields[1].name, "remarks");
    assert_eq!(knead.fields[1].label, "Notes");
    assert_eq!(
        knead.fields[1].value,
        FieldValueTemplate::Text(TextTemplate { default_value: Some("none".to_string()) })
    );
    assert_eq!(knead.fields[2].name, "by-hand");
    assert_eq!(
        knead.fields[2].value,
        FieldValueTemplate::Bool(BoolTemplate { default_value: Some(true) })
    );
    assert_eq!(knead.fields[3].name, "flour");
    assert_eq!(
        knead.fields[3].value,
        FieldValueTemplate::Enumerated(EnumeratedTemplate {
            default_value: Some(option("ww", "Whole Wheat")),
            options: vec![option("white", "White"), option("ww", "Whole Wheat")],
        })
    );
    assert_eq!(knead.fields[4].name, "water");
    assert_eq!(
        knead.fields[4].value,
        FieldValueTemplate::Number(NumberTemplate { default_value: None })
    );

    let proof_dough = &service.event_templates[&0xe2];
    assert_eq!(proof_dough.name, "Unnamed Event Template");
    assert!(proof_dough.fields.is_empty());
}

#[test]
fn import_of_a_bare_project_brings_no_templates() {
    let mut service = FileSystemEventsService::default();
    let text = format!(r#"{{"project-uuid": "{PROJECT}"}}"#);
    service.import_definition("Empty".to_string(), &text).expect("the definition is sound");
    assert_eq!(service.projects.len(), 1);
    assert_eq!(service.projects[&0xaa].name, "Empty");
    assert!(service.event_templates.is_empty());
    assert!(service.trace_templates.is_empty());
}

#[test]
fn import_of_a_default_outside_the_options_fails_and_keeps_nothing() {
    let mut service = FileSystemEventsService::default();
    let text = format!(
        r#"{{
  "project-uuid": "{PROJECT}",
  "event-templates": [
    {{"event-template-uuid": "{PROOF_DOUGH}", "trace-template-uuid": "{BAKE}"}},
    {{
      "event-template-uuid": "{KNEAD}",
      "trace-template-uuid": "{BAKE}",
      "fields": [
        {{"type": "Enumerated", "label": "Flour", "default-value": "Rye",
          "options": [{{"label": "White"}}, {{"label": "Whole Wheat", "name": "ww"}}]}}
      ]
    }}
  ],
  "trace-templates": [{{"trace-template-uuid": "{BAKE}"}}]
}}"#
    );
    let error = service.import_definition("Bread".to_string(), &text).expect_err("no such option");
    assert_eq!(error.message, "Default value Rye not found in options");
    assert!(service.projects.is_empty());
    assert!(service.event_templates.is_empty());
    assert!(service.trace_templates.is_empty());
    assert!(service.list_event_templates(None).is_empty());
    assert!(service.list_trace_templates(None).is_empty());
}

#[test]
fn import_of_a_failing_trace_template_keeps_the_event_templates_out() {
    let mut service = FileSystemEventsService::default();
    let text = format!(
        r#"{{
  "project-uuid": "{PROJECT}",
  "event-templates": [
    {{"event-template-uuid": "{KNEAD}", "trace-template-uuid": "{BAKE}"}}
  ],
  "trace-templates": [{{"name": "Bake"}}]
}}"#
    );
    let error = service.import_definition("Bread".to_string(), &text).expect_err("no identifier");
    assert_eq!(error.message, "Field trace-template-uuid is required");
    assert!(service.projects.is_empty());
    assert!(service.event_templates.is_empty());
}

#[test]
fn import_of_broken_json_gives_the_reader_s_complaint() {
    let mut service = FileSystemEventsService::default();
    let text = r#"{"project-uuid": "#;
    let expected = serde_json::from_str::<serde_json::Value>(text).unwrap_err().to_string();
    let error = service.import_definition("Bread".to_string(), text).expect_err("broken");
    assert_eq!(error.message, expected);
    assert!(error.message.contains("line 1"));
    assert!(service.projects.is_empty());
}

#[test]
fn a_second_import_replaces_what_has_the_same_identifier() {
    let mut service = FileSystemEventsService::default();
    service.import_definition("Bread".to_string(), &bread()).expect("sound");
    let text = format!(
        r#"{{
  "project-uuid": "{PROJECT}",
  "event-templates": [
    {{"event-template-uuid": "{KNEAD}", "trace-template-uuid": "{BAKE}", "name": "Fold"}},
    {{"event-template-uuid": "{KNEAD}", "trace-template-uuid": "{BAKE}", "name": "Stretch"}}
  ]
}}"#
    );
    service.import_definition("Loaf".to_string(), &text).expect("sound");
    assert_eq!(service.projects.len(), 1);
    assert_eq!(service.projects[&0xaa].name, "Loaf");
    assert_eq!(service.event_templates.len(), 2);
    assert_eq!(service.event_templates[&0xe1].name, "Stretch");
    assert!(service.event_templates[&0xe1].fields.is_empty());
    assert_eq!(service.event_templates[&0xe2].name, "Unnamed Event Template");
    assert_eq!(service.trace_templates.len(), 1);
}

#[test]
fn a_document_is_read_node_by_node() {
    let value = doc(r#"{"b": [1, -2, 0.25, "x", null, true], "a": {"k": false}}"#);
    let list = value.get("b").expect("member b").as_array().expect("an array");
    assert_eq!(list.len(), 6);
    assert_eq!(list[0].as_number(), Some(Number { bits: 1.0f64.to_bits() }));
    assert_eq!(list[1].as_number(), Some(Number { bits: (-2.0f64).to_bits() }));
    assert_eq!(list[2].as_number(), Some(Number { bits: 0.25f64.to_bits() }));
    assert_eq!(list[3].as_str(), Some("x"));
    assert_eq!(list[3].as_number(), None);
    assert_eq!(list[4].kind(), "null");
    assert_eq!(list[5].as_bool(), Some(true));
    assert_eq!(list[5].as_str(), None);
    let inner = value.get("a").expect("member a");
    assert!(inner.is_object_value());
    assert_eq!(inner.get("k").expect("member k").as_bool(), Some(false));
    assert!(inner.get("missing").is_none());
    assert!(list[0].get("k").is_none());
    assert_eq!(value.kind(), "object");
    assert_eq!(list[0].kind(), "number");
    assert_eq!(list[3].kind(), "string");
    assert_eq!(list[5].kind(), "boolean");
    assert_eq!(value.get("b").expect("member b").kind(), "array");
}

#[test]
fn a_required_identifier_is_read_from_its_text() {
    let value = doc(r#"{"id": "a1a2a3a4-b1b2-c1c2-d1d2-d3d4d5d6d7d8", "n": 7, "bad": "xyz"}"#);
    assert_eq!(
        FileSystemEventsService::parse_required_uuid(&value, "id"),
        Ok(0xa1a2a3a4b1b2c1c2d1d2d3d4d5d6d7d8)
    );
    assert_eq!(
        message(FileSystemEventsService::parse_required_uuid(&value, "other")),
        "Field other is required"
    );
    assert_eq!(
        message(FileSystemEventsService::parse_required_uuid(&value, "n")),
        "Field n is supposed to be a string"
    );
    let complaint = uuid::Uuid::parse_str("xyz").unwrap_err().to_string();
    assert_eq!(
        message(FileSystemEventsService::parse_required_uuid(&value, "bad")),
        format!("Failed to parse UUID: {complaint}")
    );
    assert_eq!(
        message(FileSystemEventsService::parse_required_uuid(&doc("[]"), "id")),
        "Expected object"
    );
}

#[test]
fn an_optional_identifier_falls_back() {
    let value = doc(r#"{"id": "00000000-0000-0000-0000-000000000007", "n": 7, "bad": "xyz"}"#);
    assert_eq!(FileSystemEventsService::parse_optional_uuid(&value, "id", 99), Ok(7));
    assert_eq!(FileSystemEventsService::parse_optional_uuid(&value, "other", 99), Ok(99));
    assert_eq!(FileSystemEventsService::parse_optional_uuid(&value, "n", 99), Ok(99));
    let complaint = uuid::Uuid::parse_str("xyz").unwrap_err().to_string();
    assert_eq!(
        message(FileSystemEventsService::parse_optional_uuid(&value, "bad", 99)),
        complaint
    );
    assert_eq!(
        message(FileSystemEventsService::parse_optional_uuid(&doc("3"), "id", 99)),
        "Expected object"
    );
}

#[test]
fn a_text_member_is_optional() {
    let value = doc(r#"{"name": "Knead", "n": 7}"#);
    assert_eq!(
        FileSystemEventsService::parse_str(&value, "name"),
        Ok(Some("Knead".to_string()))
    );
    assert_eq!(FileSystemEventsService::parse_str(&value, "n"), Ok(None));
    assert_eq!(FileSystemEventsService::parse_str(&value, "other"), Ok(None));
    assert_eq!(
        message(FileSystemEventsService::parse_str(&doc("\"text\""), "name")),
        "Expected object"
    );
}

#[test]
fn a_label_gives_a_name() {
    assert_eq!(FileSystemEventsService::map_name("Oven Temperature"), "oven-temperature");
    assert_eq!(FileSystemEventsService::map_name("A  B"), "a--b");
    assert_eq!(FileSystemEventsService::map_name("plain"), "plain");
    assert_eq!(FileSystemEventsService::map_name(""), "");
    assert_eq!(FileSystemEventsService::map_name("ÉCLAIR au Café"), "éclair-au-café");
}

#[test]
fn an_enumerated_field_is_checked() {
    let parse = |text: &str| FileSystemEventsService::parse_enumerated_template(&doc(text));
    assert_eq!(message(parse("[]")), "Expected object");
    assert_eq!(message(parse("{}")), "Expected 'options' field");
    assert_eq!(message(parse(r#"{"options": 3}"#)), "Expected 'options' to be an array");
    assert_eq!(
        message(parse(r#"{"options": [{"label": "A"}, 3]}"#)),
        "Expected the option to be an object"
    );
    assert_eq!(message(parse(r#"{"options": [{"name": "a"}]}"#)), "Expected 'label' field");
    assert_eq!(
        message(parse(r#"{"options": [{"label": 1}]}"#)),
        "Expected 'label' to be a string"
    );
    assert_eq!(
        message(parse(r#"{"options": [{"label": "A"}], "default-value": 1}"#)),
        "Expected 'default-value' to be a string"
    );
    assert_eq!(
        message(parse(r#"{"options": [{"label": "A"}], "default-value": "B"}"#)),
        "Default value B not found in options"
    );
    assert_eq!(
        message(parse(r#"{"options": [], "default-value": ""}"#)),
        "Default value  not found in options"
    );
    assert_eq!(
        parse(r#"{"options": []}"#),
        Ok(EnumeratedTemplate { default_value: None, options: vec![] })
    );
    assert_eq!(
        parse(
            r#"{"options": [{"label": "Big One", "name": 4}, {"label": "x", "name": "Big One"},
                {"label": "Big One", "name": "later"}], "default-value": "Big One"}"#
        ),
        Ok(EnumeratedTemplate {
            default_value: Some(option("big-one", "Big One")),
            options: vec![
                option("big-one", "Big One"),
                option("Big One", "x"),
                option("later", "Big One")
            ],
        })
    );
    assert_eq!(
        parse(r#"{"options": [{"label": "A"}, {"label": "B"}], "default-value": "b"}"#),
        Ok(EnumeratedTemplate {
            default_value: Some(option("b", "B")),
            options: vec![option("a", "A"), option("b", "B")],
        })
    );
}

#[test]
fn a_field_is_checked() {
    let parse = |text: &str| FileSystemEventsService::parse_field_template(&doc(text));
    assert_eq!(message(parse("1")), "Expected object");
    assert_eq!(message(parse(r#"{"label": "A"}"#)), "Field type is required");
    assert_eq!(message(parse(r#"{"type": 4, "label": "A"}"#)), "Field type is required");
    assert_eq!(message(parse(r#"{"type": "Text"}"#)), "Field label is required");
    assert_eq!(
        message(parse(r#"{"type": "Number", "label": "A", "default-value": "1"}"#)),
        "Expected a number"
    );
    assert_eq!(
        message(parse(r#"{"type": "Number", "label": "A", "default-value": null}"#)),
        "Expected a number"
    );
    assert_eq!(
        message(parse(r#"{"type": "Text", "label": "A", "default-value": 1}"#)),
        "Expected a string"
    );
    assert_eq!(
        message(parse(r#"{"type": "Boolean", "label": "A", "default-value": "true"}"#)),
        "Expected a boolean"
    );
    assert_eq!(
        message(parse(r#"{"type": "Enumerated", "label": "A"}"#)),
        "Expected 'options' field"
    );
    assert_eq!(message(parse(r#"{"type": "Date", "label": "A"}"#)), "Unknown field type: Date");
    assert_eq!(message(parse(r#"{"type": "number", "label": "A"}"#)), "Unknown field type: number");
    let field = parse(r#"{"type": "Boolean", "label": "Is Done", "name": 3}"#).expect("sound");
    assert_eq!(field.name, "is-done");
    assert_eq!(field.label, "Is Done");
    assert_eq!(field.value, FieldValueTemplate::Bool(BoolTemplate { default_value: None }));
    let field = parse(r#"{"type": "Number", "label": "N", "default-value": 3}"#).expect("sound");
    assert_eq!(
        field.value,
        FieldValueTemplate::Number(NumberTemplate {
            default_value: Some(Number { bits: 3.0f64.to_bits() })
        })
    );
}

#[test]
fn lists_stop_at_the_first_complaint() {
    assert_eq!(
        message(FileSystemEventsService::parse_field_templates(&doc("{}"))),
        "Expected array"
    );
    assert_eq!(
        message(FileSystemEventsService::parse_field_templates(&doc(
            r#"[{"type": "Text", "label": "A"}, {"type": "Text"}, {"label": "B"}]"#
        ))),
        "Field label is required"
    );
    assert_eq!(FileSystemEventsService::parse_field_templates(&doc("[]")), Ok(vec![]));
    assert_eq!(
        message(FileSystemEventsService::parse_event_templates(&doc("{}"), 5)),
        "Expected array"
    );
    assert_eq!(
        message(FileSystemEventsService::parse_event_templates(&doc("[1]"), 5)),
        "Expected object"
    );
    assert_eq!(
        message(FileSystemEventsService::parse_trace_templates(&doc("7"), 1, 5)),
        "Expected array"
    );
    assert_eq!(
        message(FileSystemEventsService::parse_trace_templates(&doc("[[]]"), 1, 5)),
        "Expected object"
    );
}

#[test]
fn an_event_template_is_checked() {
    let parse = |text: &str| FileSystemEventsService::parse_event_template(&doc(text), 1234);
    assert_eq!(message(parse("[]")), "Expected object");
    assert_eq!(message(parse("{}")), "Field event-template-uuid is required");
    assert_eq!(
        message(parse(&format!(r#"{{"event-template-uuid": "{KNEAD}"}}"#))),
        "Field trace-template-uuid is required"
    );
    assert_eq!(
        message(parse(&format!(
            r#"{{"event-template-uuid": "{KNEAD}", "trace-template-uuid": "{BAKE}", "fields": 3}}"#
        ))),
        "Expected array"
    );
    let template = parse(&format!(
        r#"{{"event-template-uuid": "{KNEAD}", "trace-template-uuid": "{BAKE}", "name": 3,
            "fields": [{{"type": "Text", "label": "Notes"}}]}}"#
    ))
    .expect("sound");
    assert_eq!(template.event_template_uuid, 0xe1);
    assert_eq!(template.trace_template_uuid, 0xb1);
    assert_eq!(template.name, "Unnamed Event Template");
    assert_eq!(template.created_at, 1234);
    assert_eq!(template.fields.len(), 1);
    assert_eq!(template.fields[0].name, "notes");
    assert!(template.default_tags.is_empty());
}

#[test]
fn a_transition_is_checked() {
    let parse = |text: &str| FileSystemEventsService::parse_trace_flow_entry(&doc(text));
    assert_eq!(message(parse("[]")), "Expected object");
    assert_eq!(message(parse("{}")), "Field from is required");
    assert_eq!(
        message(parse(&format!(r#"{{"from": "{KNEAD}"}}"#))),
        "Expected flow to have a 'to' field"
    );
    assert_eq!(
        message(parse(&format!(r#"{{"from": "{KNEAD}", "to": "{KNEAD}"}}"#))),
        "Expected flow 'to' to be an array"
    );
    assert_eq!(
        message(parse(&format!(r#"{{"from": "{KNEAD}", "to": ["{KNEAD}", 4]}}"#))),
        "Expected a string, found: number"
    );
    assert_eq!(
        message(parse(&format!(r#"{{"from": "{KNEAD}", "to": [null]}}"#))),
        "Expected a string, found: null"
    );
    let complaint = uuid::Uuid::parse_str("abc").unwrap_err().to_string();
    assert_eq!(message(parse(&format!(r#"{{"from": "{KNEAD}", "to": ["abc"]}}"#))), complaint);
    let entry = parse(&format!(
        r#"{{"from": "{KNEAD}", "to": ["{PROOF_DOUGH}", "{KNEAD}", "{PROOF_DOUGH}"]}}"#
    ))
    .expect("sound");
    assert_eq!(entry.from, 0xe1);
    assert_eq!(entry.to, vec![0xe2, 0xe1, 0xe2]);
    assert_eq!(
        message(FileSystemEventsService::parse_trace_flow_entries(&doc(r#"{"a": 1}"#))),
        "Expected an array of trace flow entries. Found: object"
    );
    assert_eq!(FileSystemEventsService::parse_trace_flow_entries(&doc("[]")), Ok(vec![]));
}

#[test]
fn a_trace_template_is_checked() {
    let parse = |text: &str| FileSystemEventsService::parse_trace_template(&doc(text), 0xaa, 77);
    assert_eq!(message(parse("null")), "Expected object");
    assert_eq!(message(parse("{}")), "Field trace-template-uuid is required");
    assert_eq!(
        message(parse(&format!(r#"{{"trace-template-uuid": "{BAKE}", "transitions": true}}"#))),
        "Expected an array of trace flow entries. Found: boolean"
    );
    let template = parse(&format!(r#"{{"trace-template-uuid": "{BAKE}"}}"#)).expect("sound");
    assert_eq!(template.trace_template_uuid, 0xb1);
    assert_eq!(template.project_uuid, 0xaa);
    assert_eq!(template.name, "Unnamed Trace Template");
    assert_eq!(template.created_at, 77);
    assert!(template.flow.is_empty());
}

#[test]
fn a_definition_is_read_at_one_time() {
    let definition =
        FileSystemEventsService::parse_definition(&doc(&bread()), 42).expect("sound");
    assert_eq!(definition.project_uuid, 0xaa);
    assert_eq!(definition.event_templates.len(), 2);
    assert_eq!(definition.event_templates[0].event_template_uuid, 0xe1);
    assert_eq!(definition.event_templates[0].created_at, 42);
    assert_eq!(definition.event_templates[1].event_template_uuid, 0xe2);
    assert_eq!(definition.trace_templates.len(), 1);
    assert_eq!(definition.trace_templates[0].created_at, 42);
    assert_eq!(
        message(FileSystemEventsService::parse_definition(&doc("{}"), 42)),
        "Field project-uuid is required"
    );
    assert_eq!(
        message(FileSystemEventsService::parse_definition(
            &doc(&format!(r#"{{"project-uuid": "{PROJECT}", "event-templates": {{}}}}"#)),
            42
        )),
        "Expected array"
    );
    let mut service = FileSystemEventsService::default();
    assert_eq!(
        service.import_definition_at("Bread".to_string(), &doc(&bread()), 42),
        Ok(())
    );
    assert_eq!(service.projects[&0xaa].created_at, 42);
    assert_eq!(service.event_templates[&0xe2].created_at, 42);
    assert_eq!(
        message(service.import_definition_at("Bread".to_string(), &doc("[]"), 43)),
        "Expected object"
    );
    assert_eq!(service.projects[&0xaa].created_at, 42);
}
