//! The repository as mathematics: maps from identifiers to records, and what
//! every operation of the service makes of them.

use vstd::prelude::*;
use crate::builders::{event_built, trace_built};
use crate::clock::Timestamp;
use crate::definition::{
    event_template_item, suggested_event_templates, trace_template_item, EventTemplateModel,
    TraceTemplateModel,
};
use crate::events::{shown_field, trace_item, EventModel, TraceModel};
use crate::ident::Uuid;
use crate::project::ProjectModel;
use crate::service::{EventBuilderModel, TraceBuilderModel};
use crate::views::{
    EventItemModel, EventTemplateItemModel, EventViewModel, TraceItemModel,
    TraceTemplateItemModel, TraceViewModel,
};

verus! {

/// What the repository holds, as maps from identifiers to records.
pub struct StoreModel {
    pub projects_directory: Seq<char>,
    pub event_templates: Map<Uuid, EventTemplateModel>,
    pub trace_templates: Map<Uuid, TraceTemplateModel>,
    pub events: Map<Uuid, EventModel>,
    pub traces: Map<Uuid, TraceModel>,
    pub projects: Map<Uuid, ProjectModel>,
}

/// The templates of one project, as lists.
pub struct ProjectDefinitionModel {
    pub project_uuid: Uuid,
    pub event_templates: Seq<EventTemplateModel>,
    pub trace_templates: Seq<TraceTemplateModel>,
}

/// The events and traces of one project, as lists.
pub struct ProjectDataModel {
    pub project_uuid: Uuid,
    pub events: Seq<EventModel>,
    pub traces: Seq<TraceModel>,
}

/// The three documents of one project, as mathematics.
pub struct ProjectDocumentsModel {
    pub project: ProjectModel,
    pub definition: ProjectDefinitionModel,
    pub data: ProjectDataModel,
}

/// `keys` lists the set `set`: every member once, in some order.
pub open spec fn lists(keys: Seq<Uuid>, set: Set<Uuid>) -> bool {
    keys.no_duplicates() && keys.to_set() == set
}

/// `items` holds the items of the keys `keys`, which list the set `set`.
pub open spec fn listed_by<T>(
    keys: Seq<Uuid>,
    items: Seq<T>,
    set: Set<Uuid>,
    item_of: spec_fn(Uuid) -> T,
) -> bool {
    lists(keys, set) && items == keys.map_values(item_of)
}

/// `items` is a listing of the set `set`: the item of every member once, in
/// some order.
pub open spec fn is_listing<T>(items: Seq<T>, set: Set<Uuid>, item_of: spec_fn(Uuid) -> T) -> bool {
    exists|keys: Seq<Uuid>| listed_by(keys, items, set, item_of)
}

/// The map `map` after the records `records` were put in one by one, each
/// under the key that `key_of` gives it: of two records with one key the
/// later stays.
pub open spec fn put_all<T>(map: Map<Uuid, T>, records: Seq<T>, key_of: spec_fn(T) -> Uuid) -> Map<
    Uuid,
    T,
>
    decreases records.len(),
{
    if records.len() == 0 {
        map
    } else {
        put_all(map, records.drop_last(), key_of).insert(key_of(records.last()), records.last())
    }
}

/// The key under which an event template is stored: its identifier.
pub open spec fn event_template_key() -> spec_fn(EventTemplateModel) -> Uuid {
    |template: EventTemplateModel| template.event_template_uuid
}

/// The key under which a trace template is stored: its identifier.
pub open spec fn trace_template_key() -> spec_fn(TraceTemplateModel) -> Uuid {
    |template: TraceTemplateModel| template.trace_template_uuid
}

/// The key under which an event is stored: its identifier.
pub open spec fn event_key() -> spec_fn(EventModel) -> Uuid {
    |event: EventModel| event.event_uuid
}

/// The key under which a trace is stored: its identifier.
pub open spec fn trace_key() -> spec_fn(TraceModel) -> Uuid {
    |trace: TraceModel| trace.trace_uuid
}

/// Putting in one record more.
pub proof fn lemma_put_next<T>(
    map: Map<Uuid, T>,
    records: Seq<T>,
    key_of: spec_fn(T) -> Uuid,
    done: int,
)
    requires
        0 <= done < records.len(),
    ensures
        put_all(map, records.take(done + 1), key_of) == put_all(
            map,
            records.take(done),
            key_of,
        ).insert(key_of(records[done]), records[done]),
{
    assert(records.take(done + 1).drop_last() =~= records.take(done));
}

/// The keys chosen so far, `chosen`, are those among the first `done` of `all`
/// that the set `set` holds, each once.
pub open spec fn chosen_from(chosen: Seq<Uuid>, all: Seq<Uuid>, done: int, set: Set<Uuid>) -> bool {
    &&& chosen.no_duplicates()
    &&& forall|key: Uuid| #[trigger]
        chosen.contains(key) <==> all.take(done).contains(key) && set.contains(key)
}

/// One more key looked at: where the set holds it, it joins the chosen ones,
/// at whatever place; where not, they stay as they are.
pub proof fn lemma_choose_next(
    chosen: Seq<Uuid>,
    all: Seq<Uuid>,
    done: int,
    set: Set<Uuid>,
    place: int,
)
    requires
        all.no_duplicates(),
        0 <= done < all.len(),
        0 <= place <= chosen.len(),
        chosen_from(chosen, all, done, set),
    ensures
        set.contains(all[done]) ==> chosen_from(
            chosen.insert(place, all[done]),
            all,
            done + 1,
            set,
        ),
        !set.contains(all[done]) ==> chosen_from(chosen, all, done + 1, set),
{
    let key = all[done];
    let before = all.take(done);
    let after = all.take(done + 1);
    assert(after =~= before.push(key));
    assert forall|k: Uuid| after.contains(k) <==> before.contains(k) || k == key by {
        if before.contains(k) {
            let at = choose|at: int| 0 <= at < before.len() && before[at] == k;
            assert(after[at] == k);
        }
        if k == key {
            assert(after[done] == k);
        }
    }
    assert(!before.contains(key)) by {
        if before.contains(key) {
            let at = choose|at: int| 0 <= at < before.len() && before[at] == key;
            assert(all[at] == all[done]);
        }
    }
    if set.contains(key) {
        let next = chosen.insert(place, key);
        assert(!chosen.contains(key));
        assert forall|k: Uuid| next.contains(k) <==> chosen.contains(k) || k == key by {
            if chosen.contains(k) {
                let at = choose|at: int| 0 <= at < chosen.len() && chosen[at] == k;
                if at < place {
                    assert(next[at] == k);
                } else {
                    assert(next[at + 1] == k);
                }
            }
            if k == key {
                assert(next[place] == k);
            }
            if next.contains(k) && k != key {
                let at = choose|at: int| 0 <= at < next.len() && next[at] == k;
                if at < place {
                    assert(chosen[at] == k);
                } else {
                    assert(chosen[at - 1] == k);
                }
            }
        }
        assert(next.no_duplicates()) by {
            assert forall|a: int, b: int| 0 <= a < next.len() && 0 <= b < next.len() && a != b
                implies next[a] != next[b] by {
                let from_a = if a < place { a } else { a - 1 };
                let from_b = if b < place { b } else { b - 1 };
                if a == place {
                    assert(next[b] == chosen[from_b]);
                    assert(chosen.contains(chosen[from_b]));
                } else if b == place {
                    assert(next[a] == chosen[from_a]);
                    assert(chosen.contains(chosen[from_a]));
                } else {
                    assert(next[a] == chosen[from_a]);
                    assert(next[b] == chosen[from_b]);
                }
            }
        }
    }
}

/// Every key looked at: the chosen ones list what the set holds of the
/// keys.
pub proof fn lemma_choose_done(chosen: Seq<Uuid>, all: Seq<Uuid>, set: Set<Uuid>)
    requires
        chosen_from(chosen, all, all.len() as int, set),
        set.subset_of(all.to_set()),
    ensures
        lists(chosen, set),
{
    assert(all.take(all.len() as int) =~= all);
    assert(chosen.to_set() =~= set);
}

/// Whether one time of last use is no later than another. No time at all
/// comes before every time.
pub open spec fn no_later(a: Option<Timestamp>, b: Option<Timestamp>) -> bool {
    match (a, b) {
        (None, _) => true,
        (Some(_), None) => false,
        (Some(x), Some(y)) => x <= y,
    }
}

/// Whether a listing of event templates runs from the least recently used to
/// the most recently used.
pub open spec fn event_templates_ascending(items: Seq<EventTemplateItemModel>) -> bool {
    forall|a: int, b: int|
        0 <= a <= b < items.len() ==> (#[trigger] items[a]).last_used <= (
        #[trigger] items[b]).last_used
}

/// Whether a listing of trace templates runs from the least recently used to
/// the most recently used.
pub open spec fn trace_templates_ascending(items: Seq<TraceTemplateItemModel>) -> bool {
    forall|a: int, b: int|
        0 <= a <= b < items.len() ==> no_later(
            (#[trigger] items[a]).last_used,
            (#[trigger] items[b]).last_used,
        )
}

impl StoreModel {
    /// The repository that holds nothing.
    pub open spec fn empty(projects_directory: Seq<char>) -> StoreModel {
        StoreModel {
            projects_directory,
            event_templates: Map::empty(),
            trace_templates: Map::empty(),
            events: Map::empty(),
            traces: Map::empty(),
            projects: Map::empty(),
        }
    }

    /// Whether every record is stored under its own identifier. The empty
    /// repository is so, and every operation keeps it so.
    pub open spec fn well_keyed(self) -> bool {
        &&& forall|key: Uuid| #[trigger]
            self.event_templates.contains_key(key) ==> self.event_templates[key].event_template_uuid
                == key
        &&& forall|key: Uuid| #[trigger]
            self.trace_templates.contains_key(key) ==> self.trace_templates[key].trace_template_uuid
                == key
        &&& forall|key: Uuid| #[trigger]
            self.events.contains_key(key) ==> self.events[key].event_uuid == key
        &&& forall|key: Uuid| #[trigger]
            self.traces.contains_key(key) ==> self.traces[key].trace_uuid == key
        &&& forall|key: Uuid| #[trigger]
            self.projects.contains_key(key) ==> self.projects[key].project_uuid == key
    }

    /// Whether the project owns the trace template: the template names it.
    pub open spec fn project_contains_trace_template(self, project: Uuid, key: Uuid) -> bool {
        self.trace_templates.contains_key(key) && self.trace_templates[key].project_uuid == project
    }

    /// Whether the project owns the trace: through the trace's template.
    pub open spec fn project_contains_trace(self, project: Uuid, key: Uuid) -> bool {
        self.traces.contains_key(key) && self.project_contains_trace_template(
            project,
            self.traces[key].trace_template_uuid,
        )
    }

    /// Whether the project owns the event template: through the trace
    /// template that the event template belongs to.
    pub open spec fn project_contains_event_template(self, project: Uuid, key: Uuid) -> bool {
        self.event_templates.contains_key(key) && self.project_contains_trace_template(
            project,
            self.event_templates[key].trace_template_uuid,
        )
    }

    /// Whether the project owns the event: through the event's trace and
    /// through the event's template, both.
    pub open spec fn project_contains_event(self, project: Uuid, key: Uuid) -> bool {
        &&& self.events.contains_key(key)
        &&& self.project_contains_trace(project, self.events[key].trace_uuid)
        &&& self.project_contains_event_template(project, self.events[key].event_template_uuid)
    }

    /// The event templates that a listing in the scope `scope` shows.
    pub open spec fn listed_event_templates(self, scope: Option<Uuid>) -> Set<Uuid> {
        Set::new(
            |key: Uuid|
                self.event_templates.contains_key(key) && (scope matches Some(project)
                    ==> self.project_contains_event_template(project, key)),
        )
    }

    /// The trace templates that a listing in the scope `scope` shows.
    pub open spec fn listed_trace_templates(self, scope: Option<Uuid>) -> Set<Uuid> {
        Set::new(
            |key: Uuid|
                self.trace_templates.contains_key(key) && (scope matches Some(project)
                    ==> self.project_contains_trace_template(project, key)),
        )
    }

    /// The events that a listing in the scope `scope` shows.
    pub open spec fn listed_events(self, scope: Option<Uuid>) -> Set<Uuid> {
        Set::new(
            |key: Uuid|
                self.events.contains_key(key) && (scope matches Some(project)
                    ==> self.project_contains_event(project, key)),
        )
    }

    /// The traces that a listing in the scope `scope` shows: those that are
    /// not completed.
    pub open spec fn listed_traces(self, scope: Option<Uuid>) -> Set<Uuid> {
        Set::new(
            |key: Uuid|
                self.traces.contains_key(key) && self.traces[key].completion is None && (
                scope matches Some(project) ==> self.project_contains_trace(project, key)),
        )
    }

    /// The entry of an event template in a listing: it counts as last used
    /// when it was created.
    pub open spec fn event_template_listing(self, key: Uuid) -> EventTemplateItemModel {
        event_template_item(
            self.event_templates[key],
            Some(self.event_templates[key].created_at),
        )
    }

    /// The entry of a trace template in a listing: it counts as last used
    /// when it was created.
    pub open spec fn trace_template_listing(self, key: Uuid) -> TraceTemplateItemModel {
        trace_template_item(self.trace_templates[key], Some(self.trace_templates[key].created_at))
    }

    /// The name of the trace template stored under `key`, if there is one.
    pub open spec fn trace_template_name(self, key: Uuid) -> Option<Seq<char>> {
        match self.trace_templates.get(key) {
            Some(template) => Some(template.name),
            None => None,
        }
    }

    /// The entry of a trace in a listing.
    pub open spec fn trace_listing(self, key: Uuid) -> TraceItemModel {
        trace_item(
            self.traces[key],
            self.trace_template_name(self.traces[key].trace_template_uuid),
        )
    }

    /// The summary of the event template stored under `key`, if there is
    /// one.
    pub open spec fn event_template_summary(self, key: Uuid) -> Option<EventTemplateItemModel> {
        match self.event_templates.get(key) {
            Some(template) => Some(event_template_item(template, None)),
            None => None,
        }
    }

    /// The entry of an event in a listing: its template and the name of its
    /// trace are absent where the store does not hold them.
    pub open spec fn event_item(self, event: EventModel) -> EventItemModel {
        EventItemModel {
            event_uuid: event.event_uuid,
            event_template: self.event_template_summary(event.event_template_uuid),
            created_at: event.created_at,
            trace_name: match self.traces.get(event.trace_uuid) {
                Some(trace) => Some(trace.name),
                None => None,
            },
        }
    }

    /// The entry in a listing of the event stored under `key`.
    pub open spec fn event_listing(self, key: Uuid) -> EventItemModel {
        self.event_item(self.events[key])
    }

    /// An event in full: its template and its trace are absent where the
    /// store does not hold them.
    pub open spec fn event_view(self, event: EventModel) -> EventViewModel {
        EventViewModel {
            event_uuid: event.event_uuid,
            event_template: self.event_template_summary(event.event_template_uuid),
            trace: if self.traces.contains_key(event.trace_uuid) {
                Some(self.trace_listing(event.trace_uuid))
            } else {
                None
            },
            fields: event.fields.map_values(|field| shown_field(field)),
            tags: event.tags,
            began_at: event.began_at,
            created_at: event.created_at,
        }
    }

    /// Whether the event stored under `a` is at least as recent as the one
    /// stored under `b`: it was created later, or at the same time and under
    /// the greater identifier.
    pub open spec fn as_recent(self, a: Uuid, b: Uuid) -> bool {
        self.events[a].created_at > self.events[b].created_at || (self.events[a].created_at
            == self.events[b].created_at && a >= b)
    }

    /// Whether the event stored under `key` belongs to the trace `trace_uuid`.
    pub open spec fn recorded_on(self, trace_uuid: Uuid, key: Uuid) -> bool {
        self.events.contains_key(key) && self.events[key].trace_uuid == trace_uuid
    }

    /// Whether the event stored under `key` is the most recent event of the
    /// trace `trace_uuid`.
    pub open spec fn is_last_event(self, trace_uuid: Uuid, key: Uuid) -> bool {
        &&& self.recorded_on(trace_uuid, key)
        &&& forall|other: Uuid| #[trigger]
            self.recorded_on(trace_uuid, other) ==> self.as_recent(key, other)
    }

    /// The key of the most recent event of the trace `trace_uuid`, if the
    /// trace has an event.
    pub open spec fn last_event_key(self, trace_uuid: Uuid) -> Option<Uuid> {
        if exists|key: Uuid| self.is_last_event(trace_uuid, key) {
            Some(choose|key: Uuid| self.is_last_event(trace_uuid, key))
        } else {
            None
        }
    }

    /// The most recent event of the trace `trace_uuid`, as a listing shows it.
    pub open spec fn last_event(self, trace_uuid: Uuid) -> Option<EventItemModel> {
        match self.last_event_key(trace_uuid) {
            Some(key) => Some(self.event_listing(key)),
            None => None,
        }
    }

    /// When the trace `trace_uuid` was last used: when its most recent event
    /// was created.
    pub open spec fn last_used(self, trace_uuid: Uuid) -> Option<Timestamp> {
        match self.last_event(trace_uuid) {
            Some(event) => Some(event.created_at),
            None => None,
        }
    }

    /// The event template of the most recent event of the trace
    /// `trace_uuid`, where the store holds that template.
    pub open spec fn last_event_template(self, trace_uuid: Uuid) -> Option<Uuid> {
        match self.last_event(trace_uuid) {
            Some(event) => match event.event_template {
                Some(template) => Some(template.event_template_uuid),
                None => None,
            },
            None => None,
        }
    }

    /// The identifiers that the transitions of the trace's template suggest
    /// as the next step: none where the store does not hold the template.
    pub open spec fn next_steps(self, trace: TraceModel) -> Set<Uuid> {
        match self.trace_templates.get(trace.trace_template_uuid) {
            Some(template) => suggested_event_templates(
                template,
                self.last_event_template(trace.trace_uuid),
            ),
            None => Set::empty(),
        }
    }

    /// Whether the event template stored under `key` belongs to the trace's
    /// template, and the store holds that trace template.
    pub open spec fn offered(self, trace: TraceModel, key: Uuid) -> bool {
        &&& self.trace_templates.contains_key(trace.trace_template_uuid)
        &&& self.event_templates.contains_key(key)
        &&& self.event_templates[key].trace_template_uuid == trace.trace_template_uuid
    }

    /// The event templates shown as suggested for the trace: those of its
    /// trace template that are a next step.
    pub open spec fn suggested_keys(self, trace: TraceModel) -> Set<Uuid> {
        Set::new(
            |key: Uuid|
                self.offered(trace, key) && self.next_steps(trace).contains(
                    self.event_templates[key].event_template_uuid,
                ),
        )
    }

    /// The event templates shown as other for the trace: those of its trace
    /// template that are no next step.
    pub open spec fn other_keys(self, trace: TraceModel) -> Set<Uuid> {
        Set::new(
            |key: Uuid|
                self.offered(trace, key) && !self.next_steps(trace).contains(
                    self.event_templates[key].event_template_uuid,
                ),
        )
    }

    /// The entry of an event template in the view of the trace `trace_uuid`:
    /// last used when the trace was.
    pub open spec fn offered_item(self, trace_uuid: Uuid, key: Uuid) -> EventTemplateItemModel {
        event_template_item(self.event_templates[key], self.last_used(trace_uuid))
    }

    /// The entries of the event templates in the view of the trace
    /// `trace_uuid`, by key.
    pub open spec fn offered_items(self, trace_uuid: Uuid) -> spec_fn(Uuid)
        -> EventTemplateItemModel {
        |key: Uuid| self.offered_item(trace_uuid, key)
    }

    /// The entries of the event templates in a listing, by key.
    pub open spec fn event_template_listings(self) -> spec_fn(Uuid) -> EventTemplateItemModel {
        |key: Uuid| self.event_template_listing(key)
    }

    /// The entries of the trace templates in a listing, by key.
    pub open spec fn trace_template_listings(self) -> spec_fn(Uuid) -> TraceTemplateItemModel {
        |key: Uuid| self.trace_template_listing(key)
    }

    /// The entries of the events in a listing, by key.
    pub open spec fn event_listings(self) -> spec_fn(Uuid) -> EventItemModel {
        |key: Uuid| self.event_listing(key)
    }

    /// The entries of the traces in a listing, by key.
    pub open spec fn trace_listings(self) -> spec_fn(Uuid) -> TraceItemModel {
        |key: Uuid| self.trace_listing(key)
    }

    /// Whether `view` shows the trace `trace` in full: the trace's own
    /// values, its template and its most recent event, and the event
    /// templates of its trace template in two listings, suggested and other.
    pub open spec fn shows_trace(self, trace: TraceModel, view: TraceViewModel) -> bool {
        &&& view.trace_uuid == trace.trace_uuid
        &&& view.name == trace.name
        &&& view.trace_template == match self.trace_templates.get(trace.trace_template_uuid) {
            Some(template) => Some(
                trace_template_item(template, self.last_used(trace.trace_uuid)),
            ),
            None => None,
        }
        &&& view.tags == Seq::<Seq<char>>::empty()
        &&& view.completion == trace.completion
        &&& view.last_event == self.last_event(trace.trace_uuid)
        &&& is_listing(
            view.suggested_event_templates,
            self.suggested_keys(trace),
            self.offered_items(trace.trace_uuid),
        )
        &&& is_listing(
            view.other_event_templates,
            self.other_keys(trace),
            self.offered_items(trace.trace_uuid),
        )
    }

    /// The event stored under `key` in full, if there is one.
    pub open spec fn viewed_event(self, key: Uuid) -> Option<EventViewModel> {
        match self.events.get(key) {
            Some(event) => Some(self.event_view(event)),
            None => None,
        }
    }

    /// The repository after the event was put in under its identifier.
    pub open spec fn with_event(self, event: EventModel) -> StoreModel {
        StoreModel { events: self.events.insert(event.event_uuid, event), ..self }
    }

    /// The repository after the trace was put in under its identifier.
    pub open spec fn with_trace(self, trace: TraceModel) -> StoreModel {
        StoreModel { traces: self.traces.insert(trace.trace_uuid, trace), ..self }
    }

    /// The repository after the project was put in under its identifier.
    pub open spec fn with_project(self, project: ProjectModel) -> StoreModel {
        StoreModel { projects: self.projects.insert(project.project_uuid, project), ..self }
    }

    /// The repository after the trace stored under `key` was completed at
    /// `at`: unchanged where there is no such trace.
    pub open spec fn completed(self, key: Uuid, at: Timestamp) -> StoreModel {
        if self.traces.contains_key(key) {
            StoreModel {
                traces: self.traces.insert(
                    key,
                    TraceModel { completion: Some(at), ..self.traces[key] },
                ),
                ..self
            }
        } else {
            self
        }
    }

    /// The repository after the templates of a definition were put in, each
    /// under its identifier.
    pub open spec fn with_definition(self, definition: ProjectDefinitionModel) -> StoreModel {
        StoreModel {
            event_templates: put_all(
                self.event_templates,
                definition.event_templates,
                event_template_key(),
            ),
            trace_templates: put_all(
                self.trace_templates,
                definition.trace_templates,
                trace_template_key(),
            ),
            ..self
        }
    }

    /// The repository after the events and traces of a project were put in,
    /// each under its identifier.
    pub open spec fn with_data(self, data: ProjectDataModel) -> StoreModel {
        StoreModel {
            events: put_all(self.events, data.events, event_key()),
            traces: put_all(self.traces, data.traces, trace_key()),
            ..self
        }
    }

    /// The repository after the documents of one project were loaded: the
    /// project, then its definition, then its data. Without the project
    /// nothing is loaded, without the definition only the project, and
    /// without the data no events and no traces.
    pub open spec fn loaded(
        self,
        project: Option<ProjectModel>,
        definition: Option<ProjectDefinitionModel>,
        data: Option<ProjectDataModel>,
    ) -> StoreModel {
        match project {
            None => self,
            Some(project) => match definition {
                None => self.with_project(project),
                Some(definition) => match data {
                    None => self.with_project(project).with_definition(definition),
                    Some(data) => self.with_project(project).with_definition(definition).with_data(
                        data,
                    ),
                },
            },
        }
    }

    /// The traces that the project owns, completed or not.
    pub open spec fn owned_traces(self, project: Uuid) -> Set<Uuid> {
        Set::new(|key: Uuid| self.project_contains_trace(project, key))
    }

    /// The events of the repository, by key.
    pub open spec fn event_records(self) -> spec_fn(Uuid) -> EventModel {
        |key: Uuid| self.events[key]
    }

    /// The traces of the repository, by key.
    pub open spec fn trace_records(self) -> spec_fn(Uuid) -> TraceModel {
        |key: Uuid| self.traces[key]
    }

    /// The event templates of the repository, by key.
    pub open spec fn event_template_records(self) -> spec_fn(Uuid) -> EventTemplateModel {
        |key: Uuid| self.event_templates[key]
    }

    /// The trace templates of the repository, by key.
    pub open spec fn trace_template_records(self) -> spec_fn(Uuid) -> TraceTemplateModel {
        |key: Uuid| self.trace_templates[key]
    }

    /// Whether `data` holds what the project owns of events and traces: each
    /// once, in some order.
    pub open spec fn holds_data_of(self, project: Uuid, data: ProjectDataModel) -> bool {
        &&& data.project_uuid == project
        &&& is_listing(data.events, self.listed_events(Some(project)), self.event_records())
        &&& is_listing(data.traces, self.owned_traces(project), self.trace_records())
    }

    /// Whether `definition` holds what the project owns of templates: each
    /// once, in some order.
    pub open spec fn holds_definition_of(self, project: Uuid, definition: ProjectDefinitionModel)
        -> bool {
        &&& definition.project_uuid == project
        &&& is_listing(
            definition.event_templates,
            self.listed_event_templates(Some(project)),
            self.event_template_records(),
        )
        &&& is_listing(
            definition.trace_templates,
            self.listed_trace_templates(Some(project)),
            self.trace_template_records(),
        )
    }

    /// Whether `documents` holds the documents of the project stored under
    /// `key`: the project, and what it owns.
    pub open spec fn holds_documents_of(self, key: Uuid, documents: ProjectDocumentsModel) -> bool {
        &&& documents.project == self.projects[key]
        &&& self.holds_definition_of(key, documents.definition)
        &&& self.holds_data_of(key, documents.data)
    }

    /// Whether `documents` holds the documents of every project, each once,
    /// in the order of `keys`.
    pub open spec fn documents_by(self, keys: Seq<Uuid>, documents: Seq<ProjectDocumentsModel>)
        -> bool {
        &&& lists(keys, self.projects.dom())
        &&& documents.len() == keys.len()
        &&& forall|i: int|
            0 <= i < keys.len() ==> self.holds_documents_of(keys[i], #[trigger] documents[i])
    }

    /// Whether `documents` holds the documents of every project: each project
    /// once, in some order.
    pub open spec fn holds_all_documents(self, documents: Seq<ProjectDocumentsModel>) -> bool {
        exists|keys: Seq<Uuid>| self.documents_by(keys, documents)
    }

    /// The repository after the draft of an event was saved under the
    /// identifier and time given.
    pub open spec fn with_saved_event(self, builder: EventBuilderModel, uuid: Uuid, at: Timestamp)
        -> StoreModel {
        self.with_event(event_built(builder, uuid, at))
    }

    /// The repository after the draft of a trace was saved under the
    /// identifier and time given.
    pub open spec fn with_saved_trace(self, builder: TraceBuilderModel, uuid: Uuid, at: Timestamp)
        -> StoreModel {
        self.with_trace(trace_built(builder, uuid, at))
    }
}

} // verus!
