use journal::definition::{EventTemplate, TraceFlowEntry, TraceTemplate};
use journal::errors::{EventTemplateNotFound, TraceTemplateNotFound};
use journal::events::{Event, Field, FieldValue, Trace};
use journal::fs_service::{FileSystemEventsService, ProjectData, ProjectDefinition};
use journal::project::Project;
use journal::service::{EventsService, TraceSelection};
use journal::views::{
    EventItemView, EventTemplateItemView, EventView, FieldValueView, FieldView, TextValueView,
    TraceCompletion, TraceItemView, TraceTemplateItemView,
};

const P: u128 = 0xaa;
const Q: u128 = 0xbb;
const BAKE: u128 = 0xb1;
const BREW: u128 = 0xb2;
const E1: u128 = 0xe1;
const E2: u128 = 0xe2;
const E3: u128 = 0xe3;
const MASH: u128 = 0xf1;

fn event_template(uuid: u128, trace_template: u128, name: &str, created_at: i64) -> EventTemplate {
    EventTemplate {
        event_template_uuid: uuid,
        trace_template_uuid: trace_template,
        name: name.to_string(),
        fields: vec![],
        default_tags: vec![],
        created_at,
    }
}

fn trace_template(uuid: u128, project: u128, name: &str, created_at: i64, flow: Vec<TraceFlowEntry>)
    -> TraceTemplate {
    TraceTemplate {
        trace_template_uuid: uuid,
        project_uuid: project,
        name: name.to_string(),
        created_at,
        flow,
    }
}

/// Two projects: baking with three steps, brewing with one.
fn kitchen() -> FileSystemEventsService {
    let mut service = FileSystemEventsService::new("projects".to_string());
    service.load_project(
        Some(Project { project_uuid: P, name: "Bread".to_string(), created_at: 10 }),
        Some(ProjectDefinition {
            project_uuid: P,
            event_templates: vec![
                event_template(E1, BAKE, "Knead", 300),
                event_template(E2, BAKE, "Proof", 100),
                event_template(E3, BAKE, "Bake", 200),
            ],
            trace_templates: vec![trace_template(
                BAKE,
                P,
                "Loaf",
                50,
                vec![TraceFlowEntry { from: E1, to: vec![E2, E3] }],
            )],
        }),
        None,
    );
    service.load_project(
        Some(Project { project_uuid: Q, name: "Beer".to_string(), created_at: 20 }),
        Some(ProjectDefinition {
            project_uuid: Q,
            event_templates: vec![event_template(MASH, BREW, "Mash", 150)],
            trace_templates: vec![trace_template(BREW, Q, "Batch", 40, vec![])],
        }),
        None,
    );
    service
}

fn new_trace(service: &mut FileSystemEventsService, template: u128, name: &str, uuid: u128, at: i64) {
    let mut builder = service.create_trace(template).expect("the template is there");
    builder.name = name.to_string();
    service.save_trace_with(&builder, uuid, at);
}

fn new_event(service: &mut FileSystemEventsService, trace: u128, template: u128, uuid: u128, at: i64) {
    let view = service.view_trace(trace).expect("the trace is there");
    let builder = service.create_event(&view, template).expect("the template is there");
    service.save_event_with(&builder, uuid, at);
}

fn ids(items: &[EventTemplateItemView]) -> Vec<u128> {
    let mut ids: Vec<u128> = items.iter().map(|item| item.event_template_uuid).collect();
    ids.sort();
    ids
}

fn trace_ids(items: &[TraceItemView]) -> Vec<u128> {
    let mut ids: Vec<u128> = items.iter().map(|item| item.trace_uuid).collect();
    ids.sort();
    ids
}

fn event_ids(items: &[EventItemView]) -> Vec<u128> {
    let mut ids: Vec<u128> = items.iter().map(|item| item.event_uuid).collect();
    ids.sort();
    ids
}

#[test]
fn a_new_repository_holds_nothing() {
    let service = FileSystemEventsService::new("projects".to_string());
    assert_eq!(service.projects_directory, "projects");
    assert!(service.list_event_templates(None).is_empty());
    assert!(service.list_trace_templates(None).is_empty());
    assert!(service.list_events(None).is_empty());
    assert!(service.list_traces(None).is_empty());
    assert_eq!(service.view_trace(1), None);
    assert_eq!(service.view_event(1), None);
    let default = FileSystemEventsService::default();
    assert_eq!(default.projects_directory, "");
    assert!(default.projects.is_empty());
    assert_eq!(ProjectDefinition::default().project_uuid, 0);
    assert!(ProjectData::default().events.is_empty());
}

#[test]
fn a_saved_trace_is_viewed_under_its_identifier() {
    let mut service = kitchen();
    let mut builder = service.create_trace(BAKE).expect("the template is there");
    builder.name = "Monday loaf".to_string();
    service.save_trace_with(&builder, 0x71, 1000);
    let view = service.view_trace(0x71).expect("the trace was saved");
    assert_eq!(view.trace_uuid, 0x71);
    assert_eq!(view.name, "Monday loaf");
    assert_eq!(view.completion, None);
    assert_eq!(view.tags, Vec::<String>::new());
    assert_eq!(view.last_event, None);
    assert_eq!(
        view.trace_template,
        Some(TraceTemplateItemView {
            trace_template_uuid: BAKE,
            name: "Loaf".to_string(),
            created_at: 50,
            last_used: Some(50),
        })
    );
    assert_eq!(service.traces[&0x71].created_at, 1000);
    assert!(service.traces[&0x71].origin_trace_uuids.is_empty());
}

#[test]
fn a_trace_without_events_shows_its_template_from_its_creation() {
    let mut service = kitchen();
    new_trace(&mut service, BREW, "Pale ale", 0x81, 1000);
    let fresh = service.view_trace(0x81).expect("the trace is there");
    assert_eq!(fresh.last_event, None);
    let template = fresh.trace_template.expect("the template is there");
    assert_eq!(template.created_at, 40);
    assert_eq!(template.last_used, Some(40));
    assert_eq!(
        fresh.other_event_templates,
        vec![EventTemplateItemView {
            event_template_uuid: MASH,
            name: "Mash".to_string(),
            created_at: 150,
            last_used: 150,
        }]
    );
    new_event(&mut service, 0x81, MASH, 0x601, 7000);
    let used = service.view_trace(0x81).expect("the trace is there");
    assert_eq!(used.trace_template.expect("the template is there").last_used, Some(7000));
    assert_eq!(used.other_event_templates[0].last_used, 7000);
}

#[test]
fn a_trace_saved_now_is_found_in_the_listing() {
    let mut service = kitchen();
    let mut builder = service.create_trace(BAKE).expect("the template is there");
    builder.name = "Monday loaf".to_string();
    service.save_trace(&builder);
    let listed = service.list_traces(None);
    assert_eq!(listed.len(), 1);
    assert_eq!(listed[0].name, "Monday loaf");
    assert_eq!(listed[0].template_name, Some("Loaf".to_string()));
    assert_ne!(listed[0].trace_uuid, builder.trace_uuid);
    assert_eq!(service.view_trace(builder.trace_uuid), None);
    let view = service.view_trace(listed[0].trace_uuid).expect("the trace was saved");
    assert_eq!(view.name, "Monday loaf");
    assert_eq!(view.completion, None);
    assert!(service.traces[&listed[0].trace_uuid].created_at > 1_600_000_000_000);
}

#[test]
fn a_completed_trace_leaves_the_listing_and_stays_in_view() {
    let mut service = kitchen();
    new_trace(&mut service, BAKE, "Monday loaf", 0x71, 1000);
    new_trace(&mut service, BAKE, "Tuesday loaf", 0x72, 1100);
    assert_eq!(trace_ids(&service.list_traces(None)), vec![0x71, 0x72]);

    service.complete_trace_at(0x71, 5000);
    assert_eq!(trace_ids(&service.list_traces(None)), vec![0x72]);
    assert_eq!(trace_ids(&service.list_traces(Some(P))), vec![0x72]);
    let view = service.view_trace(0x71).expect("the trace stays");
    assert_eq!(view.name, "Monday loaf");
    assert_eq!(view.completion, Some(TraceCompletion { completed_at: 5000 }));

    service.complete_trace(0x72);
    assert!(service.list_traces(None).is_empty());
    let completed = service.view_trace(0x72).expect("the trace stays").completion;
    assert!(completed.expect("completed").completed_at > 1_600_000_000_000);

    service.complete_trace(0x99);
    service.complete_trace_at(0x98, 1);
    assert_eq!(service.traces.len(), 2);
    assert_eq!(service.view_trace(0x99), None);
}

#[test]
fn the_last_event_decides_what_is_suggested() {
    let mut service = kitchen();
    new_trace(&mut service, BAKE, "Monday loaf", 0x71, 1000);

    let fresh = service.view_trace(0x71).expect("the trace is there");
    assert_eq!(fresh.last_event, None);
    assert_eq!(ids(&fresh.suggested_event_templates), vec![E2, E3]);
    assert_eq!(ids(&fresh.other_event_templates), vec![E1]);
    assert!(fresh.other_event_templates.iter().all(|item| item.last_used == item.created_at));

    new_event(&mut service, 0x71, E1, 0x501, 2000);
    let kneaded = service.view_trace(0x71).expect("the trace is there");
    assert_eq!(
        kneaded.last_event,
        Some(EventItemView {
            event_uuid: 0x501,
            event_template: Some(EventTemplateItemView {
                event_template_uuid: E1,
                name: "Knead".to_string(),
                created_at: 300,
                last_used: 300,
            }),
            created_at: 2000,
            trace_name: Some("Monday loaf".to_string()),
        })
    );
    assert_eq!(ids(&kneaded.suggested_event_templates), vec![E2, E3]);
    assert_eq!(ids(&kneaded.other_event_templates), vec![E1]);
    assert!(kneaded.suggested_event_templates.iter().all(|item| item.last_used == 2000));
    assert_eq!(
        kneaded.other_event_templates,
        vec![EventTemplateItemView {
            event_template_uuid: E1,
            name: "Knead".to_string(),
            created_at: 300,
            last_used: 2000,
        }]
    );
    assert_eq!(kneaded.trace_template.expect("the template is there").last_used, Some(2000));

    new_event(&mut service, 0x71, E2, 0x502, 3000);
    let proofed = service.view_trace(0x71).expect("the trace is there");
    assert_eq!(proofed.last_event.expect("an event").event_uuid, 0x502);
    assert!(proofed.suggested_event_templates.is_empty());
    assert_eq!(ids(&proofed.other_event_templates), vec![E1, E2, E3]);
}

#[test]
fn one_transition_and_two_event_templates() {
    let mut service = FileSystemEventsService::default();
    let text = r#"{
  "project-uuid": "00000000-0000-0000-0000-0000000000aa",
  "event-templates": [
    {"event-template-uuid": "00000000-0000-0000-0000-0000000000e1",
     "trace-template-uuid": "00000000-0000-0000-0000-0000000000b1", "name": "First"},
    {"event-template-uuid": "00000000-0000-0000-0000-0000000000e2",
     "trace-template-uuid": "00000000-0000-0000-0000-0000000000b1", "name": "Second"}
  ],
  "trace-templates": [
    {"trace-template-uuid": "00000000-0000-0000-0000-0000000000b1",
     "transitions": [{"from": "00000000-0000-0000-0000-0000000000e1",
                      "to": ["00000000-0000-0000-0000-0000000000e2"]}]}
  ]
}"#;
    service.import_definition("P".to_string(), text).expect("the definition is sound");
    let builder = service.create_trace(BAKE).expect("the template is there");
    service.save_trace(&builder);
    let trace = service.list_traces(Some(P))[0].trace_uuid;
    let view = service.view_trace(trace).expect("the trace was saved");
    let draft = service.create_event(&view, E1).expect("the template is there");
    service.save_event(&draft);

    let view = service.view_trace(trace).expect("the trace was saved");
    let last = view.last_event.expect("an event was saved");
    assert_eq!(last.event_template.expect("the template is there").event_template_uuid, E1);
    assert_eq!(ids(&view.suggested_event_templates), vec![E2]);
    assert_eq!(view.suggested_event_templates[0].name, "Second");
    assert_eq!(view.suggested_event_templates[0].last_used, last.created_at);
    assert_eq!(ids(&view.other_event_templates), vec![E1]);
}

#[test]
fn an_event_template_of_another_trace_template_is_not_offered() {
    let mut service = kitchen();
    service.import_project_definition(ProjectDefinition {
        project_uuid: P,
        event_templates: vec![
            event_template(E1, BREW, "Knead", 300),
            event_template(E3, BREW, "Bake", 200),
        ],
        trace_templates: vec![],
    });
    new_trace(&mut service, BAKE, "Monday loaf", 0x71, 1000);
    new_event(&mut service, 0x71, E1, 0x501, 2000);
    let view = service.view_trace(0x71).expect("the trace is there");
    assert_eq!(ids(&view.suggested_event_templates), vec![E2]);
    assert!(view.other_event_templates.is_empty());
}

#[test]
fn a_trace_without_its_template_offers_nothing() {
    let mut service = kitchen();
    service.import_project_data(ProjectData {
        project_uuid: P,
        events: vec![],
        traces: vec![Trace {
            trace_uuid: 0x75,
            trace_template_uuid: 0xdead,
            origin_trace_uuids: vec![],
            created_at: 1,
            name: "Orphan".to_string(),
            completion: None,
        }],
    });
    let view = service.view_trace(0x75).expect("the trace is there");
    assert_eq!(view.trace_template, None);
    assert!(view.suggested_event_templates.is_empty());
    assert!(view.other_event_templates.is_empty());
    assert_eq!(
        service.list_traces(None),
        vec![TraceItemView { trace_uuid: 0x75, name: "Orphan".to_string(), template_name: None }]
    );
    assert!(service.list_traces(Some(P)).is_empty());
}

#[test]
fn of_two_events_at_one_time_the_greater_identifier_is_last() {
    let mut service = kitchen();
    new_trace(&mut service, BAKE, "Monday loaf", 0x71, 1000);
    new_trace(&mut service, BAKE, "Tuesday loaf", 0x72, 1000);
    new_event(&mut service, 0x71, E1, 0x503, 2000);
    new_event(&mut service, 0x71, E2, 0x509, 2000);
    new_event(&mut service, 0x71, E3, 0x505, 2000);
    new_event(&mut service, 0x71, E1, 0x50f, 1999);
    new_event(&mut service, 0x72, E3, 0x5ff, 9000);
    assert_eq!(service.last_event_key(0x71), Some(0x509));
    assert_eq!(service.last_event_key(0x72), Some(0x5ff));
    assert_eq!(service.last_event_key(0x73), None);
    let view = service.view_trace(0x71).expect("the trace is there");
    assert_eq!(view.last_event.expect("an event").event_uuid, 0x509);
    new_event(&mut service, 0x71, E1, 0x501, 2001);
    assert_eq!(
        service.get_last_event_for_trace(0x71).expect("an event").event_uuid,
        0x501
    );
}

#[test]
fn an_event_whose_template_is_gone_counts_as_no_step() {
    let mut service = kitchen();
    new_trace(&mut service, BAKE, "Monday loaf", 0x71, 1000);
    service.import_project_data(ProjectData {
        project_uuid: P,
        events: vec![Event {
            event_uuid: 0x501,
            event_template_uuid: 0xdead,
            trace_uuid: 0x71,
            fields: vec![],
            tags: vec![],
            began_at: 1,
            created_at: 2000,
        }],
        traces: vec![],
    });
    let view = service.view_trace(0x71).expect("the trace is there");
    let last = view.last_event.expect("an event");
    assert_eq!(last.event_uuid, 0x501);
    assert_eq!(last.event_template, None);
    assert_eq!(ids(&view.suggested_event_templates), vec![E2, E3]);
    assert_eq!(ids(&view.other_event_templates), vec![E1]);
}

#[test]
fn templates_are_listed_from_the_least_recently_used() {
    let service = kitchen();
    let all = service.list_event_templates(None);
    let order: Vec<u128> = all.iter().map(|item| item.event_template_uuid).collect();
    assert_eq!(order, vec![E2, MASH, E3, E1]);
    assert!(all.iter().all(|item| item.last_used == item.created_at));
    assert_eq!(all[0].name, "Proof");
    let bread: Vec<u128> =
        service.list_event_templates(Some(P)).iter().map(|item| item.event_template_uuid).collect();
    assert_eq!(bread, vec![E2, E3, E1]);
    let beer = service.list_event_templates(Some(Q));
    assert_eq!(
        beer,
        vec![EventTemplateItemView {
            event_template_uuid: MASH,
            name: "Mash".to_string(),
            created_at: 150,
            last_used: 150,
        }]
    );
    assert!(service.list_event_templates(Some(0x1234)).is_empty());

    let templates = service.list_trace_templates(None);
    assert_eq!(
        templates,
        vec![
            TraceTemplateItemView {
                trace_template_uuid: BREW,
                name: "Batch".to_string(),
                created_at: 40,
                last_used: Some(40),
            },
            TraceTemplateItemView {
                trace_template_uuid: BAKE,
                name: "Loaf".to_string(),
                created_at: 50,
                last_used: Some(50),
            },
        ]
    );
    assert_eq!(service.list_trace_templates(Some(P)).len(), 1);
    assert_eq!(service.list_trace_templates(Some(P))[0].trace_template_uuid, BAKE);
    assert!(service.list_trace_templates(Some(0x1234)).is_empty());
    assert!(FileSystemEventsService::used_no_later(None, Some(1)));
    assert!(FileSystemEventsService::used_no_later(None, None));
    assert!(!FileSystemEventsService::used_no_later(Some(1), None));
    assert!(FileSystemEventsService::used_no_later(Some(1), Some(1)));
    assert!(!FileSystemEventsService::used_no_later(Some(2), Some(1)));
}

#[test]
fn a_scope_shows_what_the_project_owns() {
    let mut service = kitchen();
    new_trace(&mut service, BAKE, "Monday loaf", 0x71, 1000);
    new_trace(&mut service, BREW, "Pale ale", 0x81, 1000);
    new_event(&mut service, 0x71, E1, 0x501, 2000);
    new_event(&mut service, 0x81, MASH, 0x601, 2000);
    new_event(&mut service, 0x81, E1, 0x602, 2000);

    assert_eq!(trace_ids(&service.list_traces(None)), vec![0x71, 0x81]);
    assert_eq!(trace_ids(&service.list_traces(Some(P))), vec![0x71]);
    assert_eq!(trace_ids(&service.list_traces(Some(Q))), vec![0x81]);
    assert_eq!(event_ids(&service.list_events(None)), vec![0x501, 0x601, 0x602]);
    assert_eq!(event_ids(&service.list_events(Some(P))), vec![0x501]);
    assert_eq!(event_ids(&service.list_events(Some(Q))), vec![0x601]);
    assert!(service.list_events(Some(0x1234)).is_empty());

    assert!(service.project_contains_trace_template(&P, &BAKE));
    assert!(!service.project_contains_trace_template(&Q, &BAKE));
    assert!(!service.project_contains_trace_template(&P, &0x1234));
    assert!(service.project_contains_trace(&Q, &0x81));
    assert!(!service.project_contains_trace(&P, &0x81));
    assert!(!service.project_contains_trace(&P, &0x1234));
    assert!(service.project_contains_event_template(&P, &E1));
    assert!(!service.project_contains_event_template(&Q, &E1));
    assert!(service.project_contains_event(&Q, &0x601));
    assert!(!service.project_contains_event(&Q, &0x602));
    assert!(!service.project_contains_event(&P, &0x602));
    assert!(!service.project_contains_event(&P, &0x1234));

    let listed = service.list_events(Some(Q));
    assert_eq!(
        listed,
        vec![EventItemView {
            event_uuid: 0x601,
            event_template: Some(EventTemplateItemView {
                event_template_uuid: MASH,
                name: "Mash".to_string(),
                created_at: 150,
                last_used: 150,
            }),
            created_at: 2000,
            trace_name: Some("Pale ale".to_string()),
        }]
    );
}

#[test]
fn an_event_is_viewed_with_what_it_names() {
    let mut service = kitchen();
    new_trace(&mut service, BAKE, "Monday loaf", 0x71, 1000);
    service.import_project_data(ProjectData {
        project_uuid: P,
        events: vec![
            Event {
                event_uuid: 0x501,
                event_template_uuid: E1,
                trace_uuid: 0x71,
                fields: vec![Field {
                    name: "notes".to_string(),
                    label: "Notes".to_string(),
                    value: Some(FieldValue::Text("soft".to_string())),
                }],
                tags: vec!["kitchen".to_string()],
                began_at: 1500,
                created_at: 2000,
            },
            Event {
                event_uuid: 0x502,
                event_template_uuid: 0xdead,
                trace_uuid: 0xbeef,
                fields: vec![],
                tags: vec![],
                began_at: 1,
                created_at: 2,
            },
        ],
        traces: vec![],
    });
    assert_eq!(
        service.view_event(0x501),
        Some(EventView {
            event_uuid: 0x501,
            event_template: Some(EventTemplateItemView {
                event_template_uuid: E1,
                name: "Knead".to_string(),
                created_at: 300,
                last_used: 300,
            }),
            trace: Some(TraceItemView {
                trace_uuid: 0x71,
                name: "Monday loaf".to_string(),
                template_name: Some("Loaf".to_string()),
            }),
            fields: vec![FieldView {
                name: "notes".to_string(),
                label: "Notes".to_string(),
                value: Some(FieldValueView::Text(TextValueView {
                    value: Some("soft".to_string())
                })),
            }],
            tags: vec!["kitchen".to_string()],
            began_at: 1500,
            created_at: 2000,
        })
    );
    let orphan = service.view_event(0x502).expect("the event is there");
    assert_eq!(orphan.event_template, None);
    assert_eq!(orphan.trace, None);
    assert_eq!(service.view_event(0x503), None);
    assert_eq!(service.view_event_template_item(0xdead), None);
    assert_eq!(service.view_trace_item(0xbeef), None);
    let listed = service.view_found_event_item(&service.events[&0x502]);
    assert_eq!(listed.event_template, None);
    assert_eq!(listed.trace_name, None);
}

#[test]
fn a_draft_needs_its_template() {
    let mut service = kitchen();
    new_trace(&mut service, BAKE, "Monday loaf", 0x71, 1000);
    let view = service.view_trace(0x71).expect("the trace is there");
    assert_eq!(
        service.create_event(&view, 0x1234),
        Err(EventTemplateNotFound { event_template_uuid: 0x1234 })
    );
    assert_eq!(
        service.create_trace(0x1234),
        Err(TraceTemplateNotFound { trace_template_uuid: 0x1234 })
    );
    let draft = service.create_event(&view, E2).expect("the template is there");
    assert_eq!(draft.event_template.name, "Proof");
    assert_eq!(
        draft.selected_trace,
        TraceSelection::Selected(TraceItemView {
            trace_uuid: 0x71,
            name: "Monday loaf".to_string(),
            template_name: Some("Loaf".to_string()),
        })
    );
    service.save_event(&draft);
    let saved = service.list_events(None);
    assert_eq!(saved.len(), 1);
    assert_ne!(saved[0].event_uuid, draft.uuid);
    assert_eq!(saved[0].trace_name, Some("Monday loaf".to_string()));
    assert_eq!(service.events[&saved[0].event_uuid].began_at, draft.began_at);
}

#[test]
fn saving_under_a_known_identifier_replaces() {
    let mut service = kitchen();
    new_trace(&mut service, BAKE, "Monday loaf", 0x71, 1000);
    new_trace(&mut service, BAKE, "Tuesday loaf", 0x71, 1100);
    assert_eq!(service.traces.len(), 1);
    assert_eq!(service.view_trace(0x71).expect("there").name, "Tuesday loaf");
    new_event(&mut service, 0x71, E1, 0x501, 2000);
    new_event(&mut service, 0x71, E2, 0x501, 2100);
    assert_eq!(service.events.len(), 1);
    assert_eq!(service.events[&0x501].event_template_uuid, E2);
}

#[test]
fn a_project_without_its_data_brings_templates_only() {
    let mut service = FileSystemEventsService::default();
    service.load_project(
        Some(Project { project_uuid: P, name: "Bread".to_string(), created_at: 10 }),
        Some(ProjectDefinition {
            project_uuid: P,
            event_templates: vec![event_template(E1, BAKE, "Knead", 300)],
            trace_templates: vec![trace_template(BAKE, P, "Loaf", 50, vec![])],
        }),
        None,
    );
    assert_eq!(service.projects.len(), 1);
    assert_eq!(service.event_templates.len(), 1);
    assert_eq!(service.trace_templates.len(), 1);
    assert!(service.events.is_empty());
    assert!(service.traces.is_empty());
    assert!(service.list_events(None).is_empty());
    assert!(service.list_traces(None).is_empty());
    assert_eq!(ids(&service.list_event_templates(Some(P))), vec![E1]);
}

#[test]
fn documents_are_loaded_as_far_as_they_are_there() {
    let data = || ProjectData {
        project_uuid: P,
        events: vec![],
        traces: vec![Trace {
            trace_uuid: 0x71,
            trace_template_uuid: BAKE,
            origin_trace_uuids: vec![3],
            created_at: 1,
            name: "Monday loaf".to_string(),
            completion: Some(TraceCompletion { completed_at: 9 }),
        }],
    };
    let definition = || ProjectDefinition {
        project_uuid: P,
        event_templates: vec![],
        trace_templates: vec![trace_template(BAKE, P, "Loaf", 50, vec![])],
    };
    let project = || Project { project_uuid: P, name: "Bread".to_string(), created_at: 10 };

    let mut nothing = FileSystemEventsService::default();
    nothing.load_project(None, Some(definition()), Some(data()));
    assert!(nothing.projects.is_empty());
    assert!(nothing.trace_templates.is_empty());
    assert!(nothing.traces.is_empty());

    let mut project_only = FileSystemEventsService::default();
    project_only.load_project(Some(project()), None, Some(data()));
    assert_eq!(project_only.projects[&P], project());
    assert!(project_only.trace_templates.is_empty());
    assert!(project_only.traces.is_empty());

    let mut whole = FileSystemEventsService::default();
    whole.load_project(Some(project()), Some(definition()), Some(data()));
    assert_eq!(whole.projects.len(), 1);
    assert_eq!(whole.trace_templates.len(), 1);
    assert_eq!(whole.traces[&0x71], data().traces[0]);
    assert!(whole.list_traces(None).is_empty());
    assert_eq!(
        whole.view_trace(0x71).expect("there").completion,
        Some(TraceCompletion { completed_at: 9 })
    );
}

#[test]
fn what_a_project_owns_is_collected() {
    let mut service = kitchen();
    new_trace(&mut service, BAKE, "Monday loaf", 0x71, 1000);
    new_trace(&mut service, BAKE, "Tuesday loaf", 0x72, 1000);
    new_trace(&mut service, BREW, "Pale ale", 0x81, 1000);
    service.complete_trace_at(0x72, 4000);
    new_event(&mut service, 0x71, E1, 0x501, 2000);
    new_event(&mut service, 0x81, MASH, 0x601, 2000);
    new_event(&mut service, 0x81, E1, 0x602, 2000);

    let mut data = service.collect_project_data(&P);
    data.traces.sort_by_key(|trace| trace.trace_uuid);
    assert_eq!(data.project_uuid, P);
    assert_eq!(data.events, vec![service.events[&0x501].clone()]);
    assert_eq!(data.traces, vec![service.traces[&0x71].clone(), service.traces[&0x72].clone()]);
    assert_eq!(data.traces[1].completion, Some(TraceCompletion { completed_at: 4000 }));

    let mut definition = service.collect_project_definition(&P);
    definition.event_templates.sort_by_key(|template| template.event_template_uuid);
    assert_eq!(definition.project_uuid, P);
    assert_eq!(
        definition.event_templates,
        vec![
            event_template(E1, BAKE, "Knead", 300),
            event_template(E2, BAKE, "Proof", 100),
            event_template(E3, BAKE, "Bake", 200),
        ]
    );
    assert_eq!(definition.trace_templates, vec![service.trace_templates[&BAKE].clone()]);

    let beer = service.collect_project_data(&Q);
    assert_eq!(beer.events, vec![service.events[&0x601].clone()]);
    assert_eq!(beer.traces, vec![service.traces[&0x81].clone()]);
    let unknown = service.collect_project_data(&0x1234);
    assert_eq!(unknown.project_uuid, 0x1234);
    assert!(unknown.events.is_empty() && unknown.traces.is_empty());
    assert!(service.collect_project_definition(&0x1234).event_templates.is_empty());

    let mut copy = FileSystemEventsService::default();
    copy.load_project(
        Some(service.projects[&P].clone()),
        Some(service.collect_project_definition(&P)),
        Some(service.collect_project_data(&P)),
    );
    let (copied, kept) = (copy.view_trace(0x71).expect("there"), service.view_trace(0x71).expect("there"));
    assert_eq!(copied.name, kept.name);
    assert_eq!(copied.last_event, kept.last_event);
    assert_eq!(copied.trace_template, kept.trace_template);
    assert_eq!(ids(&copied.suggested_event_templates), ids(&kept.suggested_event_templates));
    assert_eq!(ids(&copied.other_event_templates), ids(&kept.other_event_templates));
    assert_eq!(copy.view_event(0x501), service.view_event(0x501));
    assert_eq!(trace_ids(&copy.list_traces(None)), vec![0x71]);
}

#[test]
fn the_documents_of_every_project_are_collected() {
    let mut service = kitchen();
    new_trace(&mut service, BAKE, "Monday loaf", 0x71, 1000);
    new_event(&mut service, 0x71, E1, 0x501, 2000);
    let mut documents = service.collect_documents();
    documents.sort_by_key(|documents| documents.project.project_uuid);
    assert_eq!(documents.len(), 2);
    assert_eq!(documents[0].project, service.projects[&P]);
    assert_eq!(documents[0].definition.project_uuid, P);
    assert_eq!(documents[0].definition.event_templates.len(), 3);
    assert_eq!(documents[0].definition.trace_templates.len(), 1);
    assert_eq!(documents[0].data.project_uuid, P);
    assert_eq!(documents[0].data.traces, vec![service.traces[&0x71].clone()]);
    assert_eq!(documents[0].data.events, vec![service.events[&0x501].clone()]);
    assert_eq!(documents[1].project.name, "Beer");
    assert_eq!(documents[1].definition.event_templates.len(), 1);
    assert!(documents[1].data.events.is_empty());
    assert!(documents[1].data.traces.is_empty());
    assert!(FileSystemEventsService::default().collect_documents().is_empty());

    let mut copy = FileSystemEventsService::default();
    for documents in service.collect_documents() {
        copy.load_project(
            Some(documents.project),
            Some(documents.definition),
            Some(documents.data),
        );
    }
    assert_eq!(copy.projects, service.projects);
    assert_eq!(copy.event_templates, service.event_templates);
    assert_eq!(copy.trace_templates, service.trace_templates);
    assert_eq!(copy.events, service.events);
    assert_eq!(copy.traces, service.traces);
}

#[test]
fn the_keys_of_a_map_come_each_once() {
    let service = kitchen();
    let mut keys = journal::fs_service::keys_of(&service.event_templates);
    keys.sort();
    assert_eq!(keys, vec![E1, E2, E3, MASH]);
    assert!(journal::fs_service::keys_of(&service.events).is_empty());
}
