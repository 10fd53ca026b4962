//! The repository: every template, trace, event and project, keyed by
//! identifier, with the operations that list, show, create and save them.

use vstd::prelude::*;
use vstd::std_specs::iter::IteratorSpec;
use std::collections::HashMap;
use crate::definition::{EventTemplate, TraceTemplate};
use crate::events::{shown_field, Event, Trace};
use crate::ident::Uuid;
use crate::builders::{build_event_with, build_trace_with};
use crate::clock::{now_utc, Timestamp};
use crate::errors::{EventTemplateNotFound, ParsingError, TraceTemplateNotFound};
use crate::ident::fresh_uuid;
use crate::import::{import_left, import_outcome};
use crate::model::{clone_texts, lemma_models_insert, models, opt_view, views};
use crate::project::Project;
use crate::service::{EventBuilder, EventsService, TraceBuilder};
use crate::store::{
    chosen_from, event_key, event_template_key, event_templates_ascending, lemma_choose_done,
    lemma_choose_next, lemma_put_next, listed_by, lists, no_later, put_all, trace_key,
    trace_template_key,
    trace_templates_ascending, ProjectDataModel, ProjectDefinitionModel, ProjectDocumentsModel,
    StoreModel,
};
use crate::views::{
    EventItemView, EventTemplateItemView, EventView, FieldView, TraceCompletion, TraceItemView,
    TraceTemplateItemView, TraceView,
};

verus! {

broadcast use vstd::std_specs::hash::group_hash_axioms;

/// The templates that one project owns.
#[derive(Clone, Debug, PartialEq, Eq)]
pub struct ProjectDefinition {
    pub project_uuid: Uuid,
    pub event_templates: Vec<EventTemplate>,
    pub trace_templates: Vec<TraceTemplate>,
}

impl View for ProjectDefinition {
    type V = ProjectDefinitionModel;

    open spec fn view(&self) -> ProjectDefinitionModel {
        ProjectDefinitionModel {
            project_uuid: self.project_uuid,
            event_templates: views(self.event_templates@),
            trace_templates: views(self.trace_templates@),
        }
    }
}

/// The events and traces that one project owns.
#[derive(Clone, Debug, PartialEq, Eq)]
pub struct ProjectData {
    pub project_uuid: Uuid,
    pub events: Vec<Event>,
    pub traces: Vec<Trace>,
}

impl View for ProjectData {
    type V = ProjectDataModel;

    open spec fn view(&self) -> ProjectDataModel {
        ProjectDataModel {
            project_uuid: self.project_uuid,
            events: views(self.events@),
            traces: views(self.traces@),
        }
    }
}

/// The three documents that one project is kept in: the project itself, its
/// templates, and its events and traces.
#[derive(Clone, Debug, PartialEq, Eq)]
pub struct ProjectDocuments {
    pub project: Project,
    pub definition: ProjectDefinition,
    pub data: ProjectData,
}

impl View for ProjectDocuments {
    type V = ProjectDocumentsModel;

    open spec fn view(&self) -> ProjectDocumentsModel {
        ProjectDocumentsModel {
            project: self.project@,
            definition: self.definition@,
            data: self.data@,
        }
    }
}

/// The repository. It is the system of record: one owner changes it, one call
/// at a time.
#[derive(Clone, Debug)]
pub struct FileSystemEventsService {
    pub projects_directory: String,
    pub event_templates: HashMap<Uuid, EventTemplate>,
    pub trace_templates: HashMap<Uuid, TraceTemplate>,
    pub events: HashMap<Uuid, Event>,
    pub traces: HashMap<Uuid, Trace>,
    pub projects: HashMap<Uuid, Project>,
}

impl View for FileSystemEventsService {
    type V = StoreModel;

    open spec fn view(&self) -> StoreModel {
        StoreModel {
            projects_directory: self.projects_directory@,
            event_templates: models(self.event_templates@),
            trace_templates: models(self.trace_templates@),
            events: models(self.events@),
            traces: models(self.traces@),
            projects: models(self.projects@),
        }
    }
}

impl Default for ProjectDefinition {
    fn default() -> (r: ProjectDefinition)
        ensures
            r.project_uuid == 0,
            r.event_templates@.len() == 0,
            r.trace_templates@.len() == 0,
    {
        ProjectDefinition {
            project_uuid: 0,
            event_templates: Vec::new(),
            trace_templates: Vec::new(),
        }
    }
}

impl Default for ProjectData {
    fn default() -> (r: ProjectData)
        ensures
            r.project_uuid == 0,
            r.events@.len() == 0,
            r.traces@.len() == 0,
    {
        ProjectData { project_uuid: 0, events: Vec::new(), traces: Vec::new() }
    }
}

impl Default for FileSystemEventsService {
    fn default() -> (r: FileSystemEventsService)
        ensures
            r@ == StoreModel::empty(Seq::empty()),
    {
        FileSystemEventsService::new(String::new())
    }
}

/// The keys of a map, each once.
pub fn keys_of<V>(map: &HashMap<Uuid, V>) -> (r: Vec<Uuid>)
    ensures
        r@.no_duplicates(),
        r@.to_set() == map@.dom(),
{
    let mut out: Vec<Uuid> = Vec::new();
    let ghost keys = map.keys().remaining().unref();
    for key in it: map.keys()
        invariant
            it.seq().unref() == keys,
            out@ == keys.take(it.index() as int),
    {
        out.push(*key);
    }
    assert(out@ == keys);
    out
}

impl FileSystemEventsService {
    /// The repository that holds nothing and keeps its documents under
    /// `projects_directory`.
    pub fn new(projects_directory: String) -> (r: FileSystemEventsService)
        ensures
            r@ == StoreModel::empty(projects_directory@),
    {
        let service = FileSystemEventsService {
            projects_directory,
            event_templates: HashMap::new(),
            trace_templates: HashMap::new(),
            events: HashMap::new(),
            traces: HashMap::new(),
            projects: HashMap::new(),
        };
        assert(service@.event_templates =~= Map::empty());
        assert(service@.trace_templates =~= Map::empty());
        assert(service@.events =~= Map::empty());
        assert(service@.traces =~= Map::empty());
        assert(service@.projects =~= Map::empty());
        service
    }

    /// The summary of the event template stored under `event_template_uuid`.
    pub fn view_event_template_item(&self, event_template_uuid: Uuid) -> (r: Option<
        EventTemplateItemView,
    >)
        ensures
            opt_view(r) == self@.event_template_summary(event_template_uuid),
    {
        match self.event_templates.get(&event_template_uuid) {
            Some(template) => Some(template.to_item(None)),
            None => None,
        }
    }

    /// Whether the project owns the trace.
    pub fn project_contains_trace(&self, project_uuid: &Uuid, trace_uuid: &Uuid) -> (r: bool)
        ensures
            r == self@.project_contains_trace(*project_uuid, *trace_uuid),
    {
        match self.traces.get(trace_uuid) {
            Some(trace) => self.project_contains_trace_template(
                project_uuid,
                &trace.trace_template_uuid,
            ),
            None => false,
        }
    }

    /// Whether the project owns the trace template.
    pub fn project_contains_trace_template(&self, project_uuid: &Uuid, trace_template_uuid: &Uuid)
        -> (r: bool)
        ensures
            r == self@.project_contains_trace_template(*project_uuid, *trace_template_uuid),
    {
        match self.trace_templates.get(trace_template_uuid) {
            Some(template) => template.project_uuid == *project_uuid,
            None => false,
        }
    }

    /// Whether the project owns the event template.
    pub fn project_contains_event_template(&self, project_uuid: &Uuid, event_template_uuid: &Uuid)
        -> (r: bool)
        ensures
            r == self@.project_contains_event_template(*project_uuid, *event_template_uuid),
    {
        match self.event_templates.get(event_template_uuid) {
            Some(template) => self.project_contains_trace_template(
                project_uuid,
                &template.trace_template_uuid,
            ),
            None => false,
        }
    }

    /// Whether the project owns the event.
    pub fn project_contains_event(&self, project_uuid: &Uuid, event_uuid: &Uuid) -> (r: bool)
        ensures
            r == self@.project_contains_event(*project_uuid, *event_uuid),
    {
        match self.events.get(event_uuid) {
            Some(event) => self.project_contains_trace(project_uuid, &event.trace_uuid)
                && self.project_contains_event_template(project_uuid, &event.event_template_uuid),
            None => false,
        }
    }

    /// The entry of an event in a listing.
    pub fn view_found_event_item(&self, event: &Event) -> (r: EventItemView)
        ensures
            r@ == self@.event_item(event@),
    {
        EventItemView {
            event_uuid: event.event_uuid,
            event_template: self.view_event_template_item(event.event_template_uuid),
            trace_name: match self.traces.get(&event.trace_uuid) {
                Some(trace) => Some(trace.name.clone()),
                None => None,
            },
            created_at: event.created_at,
        }
    }

    /// The entry of the trace stored under `trace_uuid` in a listing.
    pub fn view_trace_item(&self, trace_uuid: Uuid) -> (r: Option<TraceItemView>)
        ensures
            r is Some <==> self@.traces.contains_key(trace_uuid),
            r matches Some(item) ==> item@ == self@.trace_listing(trace_uuid),
    {
        match self.traces.get(&trace_uuid) {
            Some(trace) => {
                let template_name = match self.trace_templates.get(&trace.trace_template_uuid) {
                    Some(template) => Some(template.name.clone()),
                    None => None,
                };
                Some(trace.to_item(template_name))
            },
            None => None,
        }
    }

    /// An event in full.
    pub fn view_found_event(&self, event: &Event) -> (r: EventView)
        ensures
            r@ == self@.event_view(event@),
    {
        let mut fields: Vec<FieldView> = Vec::new();
        let mut i: usize = 0;
        while i < event.fields.len()
            invariant
                i <= event.fields.len(),
                fields@.len() == i,
                forall|j: int| 0 <= j < i ==> fields@[j]@ == shown_field(event.fields@[j]@),
            decreases event.fields.len() - i,
        {
            fields.push(event.fields[i].to_view());
            i = i + 1;
        }
        let view = EventView {
            event_uuid: event.event_uuid,
            event_template: self.view_event_template_item(event.event_template_uuid),
            fields,
            tags: clone_texts(&event.tags),
            trace: self.view_trace_item(event.trace_uuid),
            began_at: event.began_at,
            created_at: event.created_at,
        };
        assert(view@.fields =~= self@.event_view(event@).fields);
        view
    }
}

impl FileSystemEventsService {
    /// The key of the most recent event of the trace `trace_uuid`.
    ///
    /// Of two events created at the same time, the one under the greater
    /// identifier counts as more recent.
    pub fn last_event_key(&self, trace_uuid: Uuid) -> (r: Option<Uuid>)
        ensures
            r == self@.last_event_key(trace_uuid),
    {
        let keys = keys_of(&self.events);
        let ghost store = self@;
        let mut best: Option<Uuid> = None;
        let mut best_at: i64 = 0;
        let mut i: usize = 0;
        while i < keys.len()
            invariant
                i <= keys.len(),
                store == self@,
                keys@.to_set() == self.events@.dom(),
                best is None ==> forall|j: int|
                    0 <= j < i ==> !store.recorded_on(trace_uuid, #[trigger] keys@[j]),
                best matches Some(key) ==> store.recorded_on(trace_uuid, key) && best_at
                    == store.events[key].created_at && forall|j: int|
                    0 <= j < i && store.recorded_on(trace_uuid, #[trigger] keys@[j])
                        ==> store.as_recent(key, keys@[j]),
            decreases keys.len() - i,
        {
            let key = keys[i];
            assert(keys@.to_set().contains(key)) by {
                assert(keys@.contains(keys@[i as int]));
            }
            match self.events.get(&key) {
                Some(event) => {
                    if event.trace_uuid == trace_uuid {
                        let newer = match best {
                            None => true,
                            Some(other) => event.created_at > best_at || (event.created_at
                                == best_at && key >= other),
                        };
                        if newer {
                            best = Some(key);
                            best_at = event.created_at;
                        }
                    }
                },
                None => {},
            }
            i = i + 1;
        }
        proof {
            match best {
                None => {
                    assert forall|key: Uuid| !store.is_last_event(trace_uuid, key) by {
                        if store.recorded_on(trace_uuid, key) {
                            assert(keys@.to_set().contains(key));
                            let at = choose|at: int| 0 <= at < keys@.len() && keys@[at] == key;
                            assert(!store.recorded_on(trace_uuid, keys@[at]));
                        }
                    }
                },
                Some(found) => {
                    assert forall|other: Uuid| #[trigger]
                        store.recorded_on(trace_uuid, other) implies store.as_recent(
                        found,
                        other,
                    ) by {
                        assert(keys@.to_set().contains(other));
                        let at = choose|at: int| 0 <= at < keys@.len() && keys@[at] == other;
                        assert(store.recorded_on(trace_uuid, keys@[at]));
                    }
                    assert(store.is_last_event(trace_uuid, found));
                    let chosen = choose|key: Uuid| store.is_last_event(trace_uuid, key);
                    assert(store.as_recent(found, chosen));
                    assert(store.as_recent(chosen, found));
                },
            }
        }
        best
    }

    /// The most recent event of the trace `trace_uuid`, as a listing shows
    /// it.
    pub fn get_last_event_for_trace(&self, trace_uuid: Uuid) -> (r: Option<EventItemView>)
        ensures
            opt_view(r) == self@.last_event(trace_uuid),
    {
        match self.last_event_key(trace_uuid) {
            Some(key) => {
                assert(self@.is_last_event(trace_uuid, key));
                match self.events.get(&key) {
                    Some(event) => Some(self.view_found_event_item(event)),
                    None => None,
                }
            },
            None => None,
        }
    }

    /// The trace in full.
    pub fn create_trace_view(&self, trace: &Trace) -> (r: TraceView)
        ensures
            self@.shows_trace(trace@, r@),
    {
        let ghost store = self@;
        let last_event = self.get_last_event_for_trace(trace.trace_uuid);
        let last_used = match &last_event {
            Some(event) => Some(event.created_at),
            None => None,
        };
        let mut suggested_event_templates: Vec<EventTemplateItemView> = Vec::new();
        let mut other_event_templates: Vec<EventTemplateItemView> = Vec::new();
        let ghost mut suggested_keys: Seq<Uuid> = Seq::empty();
        let ghost mut other_keys: Seq<Uuid> = Seq::empty();
        let trace_template = match self.trace_templates.get(&trace.trace_template_uuid) {
            Some(template) => {
                let last_template = match &last_event {
                    Some(event) => match &event.event_template {
                        Some(template) => Some(template.event_template_uuid),
                        None => None,
                    },
                    None => None,
                };
                let suggested = template.get_suggested_event_templates(last_template);
                assert(suggested@ == store.next_steps(trace@));
                let keys = keys_of(&self.event_templates);
                let mut i: usize = 0;
                while i < keys.len()
                    invariant
                        i <= keys.len(),
                        store == self@,
                        keys@.no_duplicates(),
                        keys@.to_set() == self.event_templates@.dom(),
                        suggested@ == store.next_steps(trace@),
                        store.trace_templates.contains_key(trace.trace_template_uuid),
                        opt_view(last_event) == store.last_event(trace.trace_uuid),
                        last_used == store.last_used(trace.trace_uuid),
                        chosen_from(suggested_keys, keys@, i as int, store.suggested_keys(trace@)),
                        chosen_from(other_keys, keys@, i as int, store.other_keys(trace@)),
                        suggested_event_templates@.len() == suggested_keys.len(),
                        other_event_templates@.len() == other_keys.len(),
                        forall|j: int|
                            0 <= j < suggested_keys.len() ==> (
                            #[trigger] suggested_event_templates@[j])@ == store.offered_item(
                                trace.trace_uuid,
                                suggested_keys[j],
                            ),
                        forall|j: int|
                            0 <= j < other_keys.len() ==> (#[trigger] other_event_templates@[j])@
                                == store.offered_item(trace.trace_uuid, other_keys[j]),
                    decreases keys.len() - i,
                {
                    let key = keys[i];
                    proof {
                        assert(keys@.to_set().contains(key)) by {
                            assert(keys@.contains(keys@[i as int]));
                        }
                        lemma_choose_next(
                            suggested_keys,
                            keys@,
                            i as int,
                            store.suggested_keys(trace@),
                            suggested_keys.len() as int,
                        );
                        lemma_choose_next(
                            other_keys,
                            keys@,
                            i as int,
                            store.other_keys(trace@),
                            other_keys.len() as int,
                        );
                        assert(suggested_keys.insert(suggested_keys.len() as int, key)
                            =~= suggested_keys.push(key));
                        assert(other_keys.insert(other_keys.len() as int, key)
                            =~= other_keys.push(key));
                    }
                    match self.event_templates.get(&key) {
                        Some(event_template) => {
                            if event_template.trace_template_uuid == trace.trace_template_uuid {
                                if suggested.contains(&event_template.event_template_uuid) {
                                    suggested_event_templates.push(
                                        event_template.to_item(last_used),
                                    );
                                    proof {
                                        suggested_keys = suggested_keys.push(key);
                                    }
                                } else {
                                    other_event_templates.push(event_template.to_item(last_used));
                                    proof {
                                        other_keys = other_keys.push(key);
                                    }
                                }
                            }
                        },
                        None => {},
                    }
                    i = i + 1;
                }
                proof {
                    assert(store.suggested_keys(trace@).subset_of(keys@.to_set()));
                    assert(store.other_keys(trace@).subset_of(keys@.to_set()));
                    lemma_choose_done(suggested_keys, keys@, store.suggested_keys(trace@));
                    lemma_choose_done(other_keys, keys@, store.other_keys(trace@));
                }
                Some(template.to_item(last_used))
            },
            None => {
                proof {
                    assert(store.suggested_keys(trace@) =~= Set::empty());
                    assert(store.other_keys(trace@) =~= Set::empty());
                    assert(suggested_keys.to_set() =~= Set::empty());
                    assert(other_keys.to_set() =~= Set::empty());
                }
                None
            },
        };
        let view = TraceView {
            trace_uuid: trace.trace_uuid,
            name: trace.name.clone(),
            trace_template,
            tags: Vec::new(),
            completion: trace.completion,
            last_event,
            suggested_event_templates,
            other_event_templates,
        };
        proof {
            assert(lists(suggested_keys, store.suggested_keys(trace@)));
            assert(lists(other_keys, store.other_keys(trace@)));
            assert(view@.suggested_event_templates =~= suggested_keys.map_values(
                store.offered_items(trace.trace_uuid),
            ));
            assert(listed_by(
                suggested_keys,
                view@.suggested_event_templates,
                store.suggested_keys(trace@),
                store.offered_items(trace.trace_uuid),
            ));
            assert(view@.other_event_templates =~= other_keys.map_values(
                store.offered_items(trace.trace_uuid),
            ));
            assert(listed_by(
                other_keys,
                view@.other_event_templates,
                store.other_keys(trace@),
                store.offered_items(trace.trace_uuid),
            ));
            assert(view@.tags =~= Seq::<Seq<char>>::empty());
        }
        view
    }
}

impl FileSystemEventsService {
    /// Completes the trace stored under `trace_uuid` at the time `at`.
    /// Nothing changes where there is no such trace.
    pub fn complete_trace_at(&mut self, trace_uuid: Uuid, at: Timestamp)
        ensures
            final(self)@ == old(self)@.completed(trace_uuid, at),
    {
        let found = match self.traces.get(&trace_uuid) {
            Some(trace) => Some(trace.clone()),
            None => None,
        };
        match found {
            Some(trace) => {
                let mut trace = trace;
                trace.completion = Some(TraceCompletion { completed_at: at });
                proof {
                    lemma_models_insert(self.traces@, trace_uuid, trace);
                }
                self.traces.insert(trace_uuid, trace);
            },
            None => {},
        }
    }

    /// Saves the draft as an event under the identifier `uuid`, created at
    /// `at`. An event under that identifier is replaced. The draft must be
    /// anchored to a trace: for one that is not, no event is made and none
    /// is put in.
    pub fn save_event_with(&mut self, event_builder: &EventBuilder, uuid: Uuid, at: Timestamp)
        requires
            event_builder.anchored(),
        ensures
            final(self)@ == old(self)@.with_saved_event(event_builder@, uuid, at),
    {
        let event = build_event_with(event_builder, uuid, at);
        proof {
            lemma_models_insert(self.events@, event.event_uuid, event);
        }
        self.events.insert(event.event_uuid, event);
    }

    /// Saves the draft as a trace under the identifier `uuid`, created at
    /// `at`. A trace under that identifier is replaced.
    pub fn save_trace_with(&mut self, trace_builder: &TraceBuilder, uuid: Uuid, at: Timestamp)
        ensures
            final(self)@ == old(self)@.with_saved_trace(trace_builder@, uuid, at),
    {
        let trace = build_trace_with(trace_builder, uuid, at);
        proof {
            lemma_models_insert(self.traces@, trace.trace_uuid, trace);
        }
        self.traces.insert(trace.trace_uuid, trace);
    }

    /// Puts the project in under its identifier.
    pub fn import_project(&mut self, project: Project)
        ensures
            final(self)@ == old(self)@.with_project(project@),
    {
        proof {
            lemma_models_insert(self.projects@, project.project_uuid, project);
        }
        self.projects.insert(project.project_uuid, project);
    }

    /// Puts the events and traces in, each under its identifier.
    pub fn import_project_data(&mut self, project_data: ProjectData)
        ensures
            final(self)@ == old(self)@.with_data(project_data@),
    {
        let ghost before = self@;
        let ghost events = views(project_data.events@);
        let ghost traces = views(project_data.traces@);
        let mut i: usize = 0;
        while i < project_data.events.len()
            invariant
                i <= project_data.events.len(),
                events == views(project_data.events@),
                self@ == (StoreModel {
                    events: put_all(before.events, events.take(i as int), event_key()),
                    ..before
                }),
            decreases project_data.events.len() - i,
        {
            let event = project_data.events[i].clone();
            proof {
                lemma_put_next(before.events, events, event_key(), i as int);
                lemma_models_insert(self.events@, event.event_uuid, event);
            }
            self.events.insert(event.event_uuid, event);
            i = i + 1;
        }
        assert(events.take(events.len() as int) =~= events);
        let ghost middle = self@;
        let mut k: usize = 0;
        while k < project_data.traces.len()
            invariant
                k <= project_data.traces.len(),
                traces == views(project_data.traces@),
                self@ == (StoreModel {
                    traces: put_all(before.traces, traces.take(k as int), trace_key()),
                    ..middle
                }),
            decreases project_data.traces.len() - k,
        {
            let trace = project_data.traces[k].clone();
            proof {
                lemma_put_next(before.traces, traces, trace_key(), k as int);
                lemma_models_insert(self.traces@, trace.trace_uuid, trace);
            }
            self.traces.insert(trace.trace_uuid, trace);
            k = k + 1;
        }
        assert(traces.take(traces.len() as int) =~= traces);
    }

    /// Puts the templates in, each under its identifier.
    pub fn import_project_definition(&mut self, project_definition: ProjectDefinition)
        ensures
            final(self)@ == old(self)@.with_definition(project_definition@),
    {
        let ghost before = self@;
        let ghost event_templates = views(project_definition.event_templates@);
        let ghost trace_templates = views(project_definition.trace_templates@);
        let mut i: usize = 0;
        while i < project_definition.event_templates.len()
            invariant
                i <= project_definition.event_templates.len(),
                event_templates == views(project_definition.event_templates@),
                self@ == (StoreModel {
                    event_templates: put_all(
                        before.event_templates,
                        event_templates.take(i as int),
                        event_template_key(),
                    ),
                    ..before
                }),
            decreases project_definition.event_templates.len() - i,
        {
            let template = project_definition.event_templates[i].clone();
            proof {
                lemma_put_next(
                    before.event_templates,
                    event_templates,
                    event_template_key(),
                    i as int,
                );
                lemma_models_insert(self.event_templates@, template.event_template_uuid, template);
            }
            self.event_templates.insert(template.event_template_uuid, template);
            i = i + 1;
        }
        assert(event_templates.take(event_templates.len() as int) =~= event_templates);
        let ghost middle = self@;
        let mut k: usize = 0;
        while k < project_definition.trace_templates.len()
            invariant
                k <= project_definition.trace_templates.len(),
                trace_templates == views(project_definition.trace_templates@),
                self@ == (StoreModel {
                    trace_templates: put_all(
                        before.trace_templates,
                        trace_templates.take(k as int),
                        trace_template_key(),
                    ),
                    ..middle
                }),
            decreases project_definition.trace_templates.len() - k,
        {
            let template = project_definition.trace_templates[k].clone();
            proof {
                lemma_put_next(
                    before.trace_templates,
                    trace_templates,
                    trace_template_key(),
                    k as int,
                );
                lemma_models_insert(self.trace_templates@, template.trace_template_uuid, template);
            }
            self.trace_templates.insert(template.trace_template_uuid, template);
            k = k + 1;
        }
        assert(trace_templates.take(trace_templates.len() as int) =~= trace_templates);
    }

    /// Loads the documents of one project: the project, then its definition,
    /// then its data, as far as they are there. Without the project nothing
    /// is loaded, and without the definition the data is not.
    pub fn load_project(
        &mut self,
        project: Option<Project>,
        definition: Option<ProjectDefinition>,
        data: Option<ProjectData>,
    )
        ensures
            final(self)@ == old(self)@.loaded(opt_view(project), opt_view(definition), opt_view(data)),
    {
        match project {
            None => {},
            Some(project) => {
                self.import_project(project);
                match definition {
                    None => {},
                    Some(definition) => {
                        self.import_project_definition(definition);
                        match data {
                            None => {},
                            Some(data) => {
                                self.import_project_data(data);
                            },
                        }
                    },
                }
            },
        }
    }
}

impl FileSystemEventsService {
    /// What the project owns of events and traces.
    pub fn collect_project_data(&self, project_uuid: &Uuid) -> (r: ProjectData)
        ensures
            self@.holds_data_of(*project_uuid, r@),
    {
        let ghost store = self@;
        let project = *project_uuid;
        let mut events: Vec<Event> = Vec::new();
        let ghost mut event_keys: Seq<Uuid> = Seq::empty();
        let keys = keys_of(&self.events);
        let mut i: usize = 0;
        while i < keys.len()
            invariant
                i <= keys.len(),
                store == self@,
                keys@.no_duplicates(),
                keys@.to_set() == self.events@.dom(),
                chosen_from(event_keys, keys@, i as int, store.listed_events(Some(project))),
                events@.len() == event_keys.len(),
                forall|j: int|
                    0 <= j < event_keys.len() ==> (#[trigger] events@[j])@
                        == store.events[event_keys[j]],
            decreases keys.len() - i,
        {
            let key = keys[i];
            proof {
                assert(keys@.to_set().contains(key)) by {
                    assert(keys@.contains(keys@[i as int]));
                }
                lemma_choose_next(
                    event_keys,
                    keys@,
                    i as int,
                    store.listed_events(Some(project)),
                    event_keys.len() as int,
                );
                assert(event_keys.insert(event_keys.len() as int, key) =~= event_keys.push(key));
            }
            if self.project_contains_event(&project, &key) {
                match self.events.get(&key) {
                    Some(event) => {
                        events.push(event.clone());
                        proof {
                            event_keys = event_keys.push(key);
                        }
                    },
                    None => {},
                }
            }
            i = i + 1;
        }
        proof {
            assert(store.listed_events(Some(project)).subset_of(keys@.to_set()));
            lemma_choose_done(event_keys, keys@, store.listed_events(Some(project)));
        }
        let mut traces: Vec<Trace> = Vec::new();
        let ghost mut trace_keys: Seq<Uuid> = Seq::empty();
        let keys = keys_of(&self.traces);
        let mut i: usize = 0;
        while i < keys.len()
            invariant
                i <= keys.len(),
                store == self@,
                keys@.no_duplicates(),
                keys@.to_set() == self.traces@.dom(),
                chosen_from(trace_keys, keys@, i as int, store.owned_traces(project)),
                traces@.len() == trace_keys.len(),
                forall|j: int|
                    0 <= j < trace_keys.len() ==> (#[trigger] traces@[j])@
                        == store.traces[trace_keys[j]],
            decreases keys.len() - i,
        {
            let key = keys[i];
            proof {
                assert(keys@.to_set().contains(key)) by {
                    assert(keys@.contains(keys@[i as int]));
                }
                lemma_choose_next(
                    trace_keys,
                    keys@,
                    i as int,
                    store.owned_traces(project),
                    trace_keys.len() as int,
                );
                assert(trace_keys.insert(trace_keys.len() as int, key) =~= trace_keys.push(key));
            }
            if self.project_contains_trace(&project, &key) {
                match self.traces.get(&key) {
                    Some(trace) => {
                        traces.push(trace.clone());
                        proof {
                            trace_keys = trace_keys.push(key);
                        }
                    },
                    None => {},
                }
            }
            i = i + 1;
        }
        proof {
            assert(store.owned_traces(project).subset_of(keys@.to_set()));
            lemma_choose_done(trace_keys, keys@, store.owned_traces(project));
        }
        let data = ProjectData { project_uuid: project, events, traces };
        proof {
            assert(lists(event_keys, store.listed_events(Some(project))));
            assert(lists(trace_keys, store.owned_traces(project)));
            assert(data@.events =~= event_keys.map_values(store.event_records()));
            assert(listed_by(
                event_keys,
                data@.events,
                store.listed_events(Some(project)),
                store.event_records(),
            ));
            assert(data@.traces =~= trace_keys.map_values(store.trace_records()));
            assert(listed_by(
                trace_keys,
                data@.traces,
                store.owned_traces(project),
                store.trace_records(),
            ));
        }
        data
    }

    /// What the project owns of templates.
    pub fn collect_project_definition(&self, project_uuid: &Uuid) -> (r: ProjectDefinition)
        ensures
            self@.holds_definition_of(*project_uuid, r@),
    {
        let ghost store = self@;
        let project = *project_uuid;
        let mut event_templates: Vec<EventTemplate> = Vec::new();
        let ghost mut event_keys: Seq<Uuid> = Seq::empty();
        let keys = keys_of(&self.event_templates);
        let mut i: usize = 0;
        while i < keys.len()
            invariant
                i <= keys.len(),
                store == self@,
                keys@.no_duplicates(),
                keys@.to_set() == self.event_templates@.dom(),
                chosen_from(
                    event_keys,
                    keys@,
                    i as int,
                    store.listed_event_templates(Some(project)),
                ),
                event_templates@.len() == event_keys.len(),
                forall|j: int|
                    0 <= j < event_keys.len() ==> (#[trigger] event_templates@[j])@
                        == store.event_templates[event_keys[j]],
            decreases keys.len() - i,
        {
            let key = keys[i];
            proof {
                assert(keys@.to_set().contains(key)) by {
                    assert(keys@.contains(keys@[i as int]));
                }
                lemma_choose_next(
                    event_keys,
                    keys@,
                    i as int,
                    store.listed_event_templates(Some(project)),
                    event_keys.len() as int,
                );
                assert(event_keys.insert(event_keys.len() as int, key) =~= event_keys.push(key));
            }
            if self.project_contains_event_template(&project, &key) {
                match self.event_templates.get(&key) {
                    Some(template) => {
                        event_templates.push(template.clone());
                        proof {
                            event_keys = event_keys.push(key);
                        }
                    },
                    None => {},
                }
            }
            i = i + 1;
        }
        proof {
            assert(store.listed_event_templates(Some(project)).subset_of(keys@.to_set()));
            lemma_choose_done(event_keys, keys@, store.listed_event_templates(Some(project)));
        }
        let mut trace_templates: Vec<TraceTemplate> = Vec::new();
        let ghost mut trace_keys: Seq<Uuid> = Seq::empty();
        let keys = keys_of(&self.trace_templates);
        let mut i: usize = 0;
        while i < keys.len()
            invariant
                i <= keys.len(),
                store == self@,
                keys@.no_duplicates(),
                keys@.to_set() == self.trace_templates@.dom(),
                chosen_from(
                    trace_keys,
                    keys@,
                    i as int,
                    store.listed_trace_templates(Some(project)),
                ),
                trace_templates@.len() == trace_keys.len(),
                forall|j: int|
                    0 <= j < trace_keys.len() ==> (#[trigger] trace_templates@[j])@
                        == store.trace_templates[trace_keys[j]],
            decreases keys.len() - i,
        {
            let key = keys[i];
            proof {
                assert(keys@.to_set().contains(key)) by {
                    assert(keys@.contains(keys@[i as int]));
                }
                lemma_choose_next(
                    trace_keys,
                    keys@,
                    i as int,
                    store.listed_trace_templates(Some(project)),
                    trace_keys.len() as int,
                );
                assert(trace_keys.insert(trace_keys.len() as int, key) =~= trace_keys.push(key));
            }
            if self.project_contains_trace_template(&project, &key) {
                match self.trace_templates.get(&key) {
                    Some(template) => {
                        trace_templates.push(template.clone());
                        proof {
                            trace_keys = trace_keys.push(key);
                        }
                    },
                    None => {},
                }
            }
            i = i + 1;
        }
        proof {
            assert(store.listed_trace_templates(Some(project)).subset_of(keys@.to_set()));
            lemma_choose_done(trace_keys, keys@, store.listed_trace_templates(Some(project)));
        }
        let definition = ProjectDefinition { project_uuid: project, event_templates, trace_templates };
        proof {
            assert(lists(event_keys, store.listed_event_templates(Some(project))));
            assert(lists(trace_keys, store.listed_trace_templates(Some(project))));
            assert(definition@.event_templates =~= event_keys.map_values(
                store.event_template_records(),
            ));
            assert(listed_by(
                event_keys,
                definition@.event_templates,
                store.listed_event_templates(Some(project)),
                store.event_template_records(),
            ));
            assert(definition@.trace_templates =~= trace_keys.map_values(
                store.trace_template_records(),
            ));
            assert(listed_by(
                trace_keys,
                definition@.trace_templates,
                store.listed_trace_templates(Some(project)),
                store.trace_template_records(),
            ));
        }
        definition
    }
}

impl FileSystemEventsService {
    /// The documents of every project: what a save writes, all of it every
    /// time.
    pub fn collect_documents(&self) -> (r: Vec<ProjectDocuments>)
        ensures
            self@.holds_all_documents(views(r@)),
    {
        let ghost store = self@;
        let keys = keys_of(&self.projects);
        let mut documents: Vec<ProjectDocuments> = Vec::new();
        let mut i: usize = 0;
        while i < keys.len()
            invariant
                i <= keys.len(),
                store == self@,
                keys@.no_duplicates(),
                keys@.to_set() == self.projects@.dom(),
                documents@.len() == i,
                forall|j: int|
                    0 <= j < i ==> store.holds_documents_of(keys@[j], (#[trigger] documents@[j])@),
            decreases keys.len() - i,
        {
            let key = keys[i];
            assert(keys@.to_set().contains(key)) by {
                assert(keys@.contains(keys@[i as int]));
            }
            match self.projects.get(&key) {
                Some(project) => {
                    documents.push(
                        ProjectDocuments {
                            project: project.clone(),
                            definition: self.collect_project_definition(&key),
                            data: self.collect_project_data(&key),
                        },
                    );
                },
                None => {},
            }
            i = i + 1;
        }
        assert forall|j: int| 0 <= j < keys@.len() implies store.holds_documents_of(
            keys@[j],
            #[trigger] views(documents@)[j],
        ) by {
            assert(views(documents@)[j] == documents@[j]@);
        }
        assert(store.projects.dom() =~= self.projects@.dom());
        assert(store.documents_by(keys@, views(documents@)));
        documents
    }
}

impl EventsService for FileSystemEventsService {
    open spec fn store(&self) -> StoreModel {
        self@
    }

    fn list_event_templates(&self, project_uuid: Option<Uuid>) -> (r: Vec<EventTemplateItemView>) {
        let ghost store = self@;
        let ghost set = store.listed_event_templates(project_uuid);
        let mut items: Vec<EventTemplateItemView> = Vec::new();
        let ghost mut chosen: Seq<Uuid> = Seq::empty();
        let keys = keys_of(&self.event_templates);
        let mut i: usize = 0;
        while i < keys.len()
            invariant
                i <= keys.len(),
                store == self@,
                set == store.listed_event_templates(project_uuid),
                keys@.no_duplicates(),
                keys@.to_set() == self.event_templates@.dom(),
                chosen_from(chosen, keys@, i as int, set),
                items@.len() == chosen.len(),
                forall|j: int|
                    0 <= j < chosen.len() ==> (#[trigger] items@[j])@
                        == store.event_template_listing(chosen[j]),
                event_templates_ascending(views(items@)),
            decreases keys.len() - i,
        {
            let key = keys[i];
            assert(keys@.to_set().contains(key)) by {
                assert(keys@.contains(keys@[i as int]));
            }
            let listed = match project_uuid {
                None => true,
                Some(project) => self.project_contains_event_template(&project, &key),
            };
            match self.event_templates.get(&key) {
                Some(template) => {
                    if listed {
                        let item = template.to_item(Some(template.created_at));
                        let mut place: usize = 0;
                        while place < items.len() && items[place].last_used <= item.last_used
                            invariant
                                place <= items.len(),
                                forall|j: int|
                                    0 <= j < place ==> (#[trigger] items@[j]).last_used
                                        <= item.last_used,
                            decreases items.len() - place,
                        {
                            place = place + 1;
                        }
                        proof {
                            lemma_choose_next(chosen, keys@, i as int, set, place as int);
                            let before = views(items@);
                            let after = before.insert(place as int, item@);
                            assert(event_templates_ascending(after)) by {
                                assert forall|a: int, b: int| 0 <= a <= b < after.len() implies (
                                #[trigger] after[a]).last_used <= (#[trigger] after[b]).last_used by {
                                    let from_a = if a < place { a } else { a - 1 };
                                    let from_b = if b < place { b } else { b - 1 };
                                    if a != place {
                                        assert(after[a] == before[from_a]);
                                    }
                                    if b != place {
                                        assert(after[b] == before[from_b]);
                                    }
                                    if a == place && b != place {
                                        assert(before[place as int].last_used
                                            <= before[from_b].last_used);
                                    }
                                }
                            }
                            chosen = chosen.insert(place as int, key);
                        }
                        let ghost before = views(items@);
                        items.insert(place, item);
                        assert(views(items@) =~= before.insert(place as int, item@));
                    } else {
                        proof {
                            lemma_choose_next(chosen, keys@, i as int, set, 0);
                        }
                    }
                },
                None => {},
            }
            i = i + 1;
        }
        proof {
            assert(set.subset_of(keys@.to_set()));
            lemma_choose_done(chosen, keys@, set);
            assert(views(items@) =~= chosen.map_values(store.event_template_listings()));
            assert(listed_by(chosen, views(items@), set, store.event_template_listings()));
        }
        items
    }

    fn create_event(&self, trace: &TraceView, template_uuid: Uuid) -> (r: Result<
        EventBuilder,
        EventTemplateNotFound,
    >) {
        match self.event_templates.get(&template_uuid) {
            Some(template) => Ok(template.create_builder(trace)),
            None => Err(EventTemplateNotFound { event_template_uuid: template_uuid }),
        }
    }

    fn create_trace(&self, trace_template_uuid: Uuid) -> (r: Result<
        TraceBuilder,
        TraceTemplateNotFound,
    >) {
        match self.trace_templates.get(&trace_template_uuid) {
            Some(template) => Ok(template.create_builder()),
            None => Err(TraceTemplateNotFound { trace_template_uuid }),
        }
    }

    fn complete_trace(&mut self, trace_uuid: Uuid) {
        let at = now_utc();
        self.complete_trace_at(trace_uuid, at);
        assert(self.store() == old(self).store().completed(trace_uuid, at));
    }

    fn save_event(&mut self, event_builder: &EventBuilder) {
        let uuid = fresh_uuid();
        let at = now_utc();
        self.save_event_with(event_builder, uuid, at);
        assert(self.store() == old(self).store().with_saved_event(event_builder@, uuid, at));
    }

    fn save_trace(&mut self, trace_builder: &TraceBuilder) {
        let uuid = fresh_uuid();
        let at = now_utc();
        self.save_trace_with(trace_builder, uuid, at);
        assert(self.store() == old(self).store().with_saved_trace(trace_builder@, uuid, at));
    }

    fn view_event(&self, event_uuid: Uuid) -> (r: Option<EventView>) {
        match self.events.get(&event_uuid) {
            Some(event) => Some(self.view_found_event(event)),
            None => None,
        }
    }

    fn view_trace(&self, trace_uuid: Uuid) -> (r: Option<TraceView>) {
        match self.traces.get(&trace_uuid) {
            Some(trace) => Some(self.create_trace_view(trace)),
            None => None,
        }
    }

    fn list_events(&self, project_uuid: Option<Uuid>) -> (r: Vec<EventItemView>) {
        let ghost store = self@;
        let ghost set = store.listed_events(project_uuid);
        let mut items: Vec<EventItemView> = Vec::new();
        let ghost mut chosen: Seq<Uuid> = Seq::empty();
        let keys = keys_of(&self.events);
        let mut i: usize = 0;
        while i < keys.len()
            invariant
                i <= keys.len(),
                store == self@,
                set == store.listed_events(project_uuid),
                keys@.no_duplicates(),
                keys@.to_set() == self.events@.dom(),
                chosen_from(chosen, keys@, i as int, set),
                items@.len() == chosen.len(),
                forall|j: int|
                    0 <= j < chosen.len() ==> (#[trigger] items@[j])@ == store.event_listing(
                        chosen[j],
                    ),
            decreases keys.len() - i,
        {
            let key = keys[i];
            proof {
                assert(keys@.to_set().contains(key)) by {
                    assert(keys@.contains(keys@[i as int]));
                }
                lemma_choose_next(chosen, keys@, i as int, set, chosen.len() as int);
                assert(chosen.insert(chosen.len() as int, key) =~= chosen.push(key));
            }
            let listed = match project_uuid {
                None => true,
                Some(project) => self.project_contains_event(&project, &key),
            };
            match self.events.get(&key) {
                Some(event) => {
                    if listed {
                        items.push(self.view_found_event_item(event));
                        proof {
                            chosen = chosen.push(key);
                        }
                    }
                },
                None => {},
            }
            i = i + 1;
        }
        proof {
            assert(set.subset_of(keys@.to_set()));
            lemma_choose_done(chosen, keys@, set);
            assert(views(items@) =~= chosen.map_values(store.event_listings()));
            assert(listed_by(chosen, views(items@), set, store.event_listings()));
        }
        items
    }

    fn list_traces(&self, project_uuid: Option<Uuid>) -> (r: Vec<TraceItemView>) {
        let ghost store = self@;
        let ghost set = store.listed_traces(project_uuid);
        let mut items: Vec<TraceItemView> = Vec::new();
        let ghost mut chosen: Seq<Uuid> = Seq::empty();
        let keys = keys_of(&self.traces);
        let mut i: usize = 0;
        while i < keys.len()
            invariant
                i <= keys.len(),
                store == self@,
                set == store.listed_traces(project_uuid),
                keys@.no_duplicates(),
                keys@.to_set() == self.traces@.dom(),
                chosen_from(chosen, keys@, i as int, set),
                items@.len() == chosen.len(),
                forall|j: int|
                    0 <= j < chosen.len() ==> (#[trigger] items@[j])@ == store.trace_listing(
                        chosen[j],
                    ),
            decreases keys.len() - i,
        {
            let key = keys[i];
            proof {
                assert(keys@.to_set().contains(key)) by {
                    assert(keys@.contains(keys@[i as int]));
                }
                lemma_choose_next(chosen, keys@, i as int, set, chosen.len() as int);
                assert(chosen.insert(chosen.len() as int, key) =~= chosen.push(key));
            }
            let in_scope = match project_uuid {
                None => true,
                Some(project) => self.project_contains_trace(&project, &key),
            };
            match self.traces.get(&key) {
                Some(trace) => {
                    if trace.completion.is_none() && in_scope {
                        match self.view_trace_item(key) {
                            Some(item) => {
                                items.push(item);
                                proof {
                                    chosen = chosen.push(key);
                                }
                            },
                            None => {},
                        }
                    }
                },
                None => {},
            }
            i = i + 1;
        }
        proof {
            assert(set.subset_of(keys@.to_set()));
            lemma_choose_done(chosen, keys@, set);
            assert(views(items@) =~= chosen.map_values(store.trace_listings()));
            assert(listed_by(chosen, views(items@), set, store.trace_listings()));
        }
        items
    }

    fn list_trace_templates(&self, project_uuid: Option<Uuid>) -> (r: Vec<TraceTemplateItemView>) {
        let ghost store = self@;
        let ghost set = store.listed_trace_templates(project_uuid);
        let mut items: Vec<TraceTemplateItemView> = Vec::new();
        let ghost mut chosen: Seq<Uuid> = Seq::empty();
        let keys = keys_of(&self.trace_templates);
        let mut i: usize = 0;
        while i < keys.len()
            invariant
                i <= keys.len(),
                store == self@,
                set == store.listed_trace_templates(project_uuid),
                keys@.no_duplicates(),
                keys@.to_set() == self.trace_templates@.dom(),
                chosen_from(chosen, keys@, i as int, set),
                items@.len() == chosen.len(),
                forall|j: int|
                    0 <= j < chosen.len() ==> (#[trigger] items@[j])@
                        == store.trace_template_listing(chosen[j]),
                trace_templates_ascending(views(items@)),
            decreases keys.len() - i,
        {
            let key = keys[i];
            assert(keys@.to_set().contains(key)) by {
                assert(keys@.contains(keys@[i as int]));
            }
            let listed = match project_uuid {
                None => true,
                Some(project) => self.project_contains_trace_template(&project, &key),
            };
            match self.trace_templates.get(&key) {
                Some(template) => {
                    if listed {
                        let item = template.to_item(Some(template.created_at));
                        let mut place: usize = 0;
                        while place < items.len() && Self::used_no_later(
                            items[place].last_used,
                            item.last_used,
                        )
                            invariant
                                place <= items.len(),
                                forall|j: int|
                                    0 <= j < place ==> no_later(
                                        (#[trigger] items@[j]).last_used,
                                        item.last_used,
                                    ),
                            decreases items.len() - place,
                        {
                            place = place + 1;
                        }
                        proof {
                            lemma_choose_next(chosen, keys@, i as int, set, place as int);
                            let before = views(items@);
                            let after = before.insert(place as int, item@);
                            assert(trace_templates_ascending(after)) by {
                                assert forall|a: int, b: int| 0 <= a <= b < after.len() implies no_later(
                                    (#[trigger] after[a]).last_used,
                                    (#[trigger] after[b]).last_used,
                                ) by {
                                    let from_a = if a < place { a } else { a - 1 };
                                    let from_b = if b < place { b } else { b - 1 };
                                    if a != place {
                                        assert(after[a] == before[from_a]);
                                    }
                                    if b != place {
                                        assert(after[b] == before[from_b]);
                                    }
                                    if a == place && b != place {
                                        assert(no_later(
                                            before[place as int].last_used,
                                            before[from_b].last_used,
                                        ));
                                    }
                                }
                            }
                            chosen = chosen.insert(place as int, key);
                        }
                        let ghost before = views(items@);
                        items.insert(place, item);
                        assert(views(items@) =~= before.insert(place as int, item@));
                    } else {
                        proof {
                            lemma_choose_next(chosen, keys@, i as int, set, 0);
                        }
                    }
                },
                None => {},
            }
            i = i + 1;
        }
        proof {
            assert(set.subset_of(keys@.to_set()));
            lemma_choose_done(chosen, keys@, set);
            assert(views(items@) =~= chosen.map_values(store.trace_template_listings()));
            assert(listed_by(chosen, views(items@), set, store.trace_template_listings()));
        }
        items
    }

    fn import_definition(&mut self, project_name: String, definition: &str) -> (r: Result<
        (),
        ParsingError,
    >) {
        match Self::parse_document(definition) {
            Err(error) => {
                assert(import_left(Err(error), self.store()) == import_outcome(
                    old(self).store(),
                    project_name@,
                    definition@,
                    0,
                ));
                Err(error)
            },
            Ok(doc) => {
                let now = now_utc();
                let ghost name = project_name@;
                let outcome = self.import_definition_at(project_name, &doc, now);
                assert(import_left(outcome, self.store()) == import_outcome(
                    old(self).store(),
                    name,
                    definition@,
                    now,
                ));
                outcome
            },
        }
    }
}

impl FileSystemEventsService {
    /// Whether one time of last use is no later than another.
    pub fn used_no_later(a: Option<Timestamp>, b: Option<Timestamp>) -> (r: bool)
        ensures
            r == no_later(a, b),
    {
        match (a, b) {
            (None, _) => true,
            (Some(_), None) => false,
            (Some(x), Some(y)) => x <= y,
        }
    }
}

} // verus!
