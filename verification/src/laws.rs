//! What holds of the journal whatever it holds: statements that relate
//! several operations, proved from their contracts' own terms.

use vstd::prelude::*;
use crate::builders::{
    count_with_value, event_built, lemma_resolved_fields_count, resolved_fields, resolved_value,
};
use crate::clock::Timestamp;
use crate::definition::{
    current_event_template, event_builder_of, event_template_item, leads_to, successors,
    suggested_event_templates, trace_template_item, EventTemplateModel, FieldValueTemplateModel,
    TraceFlowEntryModel, TraceTemplateModel,
};
use crate::events::{FieldValueModel, TraceModel};
use crate::ident::Uuid;
use crate::import::{
    all_ok, collected, definition_of, enumerated_template_of, imported, option_named,
    options_of,
};
use crate::json::JsonValue;
use crate::project::ProjectModel;
use crate::service::{
    EventBuilder, EventBuilderModel, FieldSuggestionModel, FieldValueSuggestionModel,
    TraceBuilderModel, TraceSelection,
};
use crate::store::{
    is_listing, listed_by, put_all, ProjectDataModel, ProjectDefinitionModel,
    ProjectDocumentsModel, StoreModel,
};
use crate::views::{trace_item_of, EnumerationOptionModel, TraceViewModel};

verus! {

/// The default that a template declares for a field, as a value.
pub open spec fn template_default(template: FieldValueTemplateModel) -> Option<FieldValueModel> {
    match template {
        FieldValueTemplateModel::Number(default) => match default {
            Some(value) => Some(FieldValueModel::Number(value)),
            None => None,
        },
        FieldValueTemplateModel::Text(default) => match default {
            Some(value) => Some(FieldValueModel::Text(value)),
            None => None,
        },
        FieldValueTemplateModel::Bool(default) => match default {
            Some(value) => Some(FieldValueModel::Bool(value)),
            None => None,
        },
        FieldValueTemplateModel::Enumerated(template) => match template.default_value {
            Some(option) => Some(FieldValueModel::Enumerated(option)),
            None => None,
        },
    }
}

/// The default that a draft remembers for a field of a plain kind, as a
/// value. The draft of an enumerated field remembers its options instead.
pub open spec fn remembered_default(suggestion: FieldValueSuggestionModel) -> Option<
    FieldValueModel,
> {
    match suggestion {
        FieldValueSuggestionModel::Number(s) => match s.default_value {
            Some(value) => Some(FieldValueModel::Number(value)),
            None => None,
        },
        FieldValueSuggestionModel::Text(s) => match s.default_value {
            Some(value) => Some(FieldValueModel::Text(value)),
            None => None,
        },
        FieldValueSuggestionModel::Bool(s) => match s.default_value {
            Some(value) => Some(FieldValueModel::Bool(value)),
            None => None,
        },
        FieldValueSuggestionModel::Enumerated(s) => None,
    }
}

/// A fresh draft of an event has one field for each field of its template.
/// The value of each is the template's default, a field of a plain kind
/// remembers that default, and an enumerated field has the template's
/// options. The draft is anchored to the trace it was made on.
pub proof fn law_draft_starts_at_the_defaults(
    template: EventTemplateModel,
    trace: TraceViewModel,
    uuid: Uuid,
    began_at: Timestamp,
)
    ensures
        event_builder_of(template, trace, uuid, began_at).fields.len() == template.fields.len(),
        forall|i: int|
            #![trigger template.fields[i]]
            0 <= i < template.fields.len() ==> {
                let field = event_builder_of(template, trace, uuid, began_at).fields[i];
                &&& field.name == template.fields[i].name
                &&& field.label == template.fields[i].label
                &&& resolved_value(field.value) == template_default(template.fields[i].value)
                &&& match template.fields[i].value {
                    FieldValueTemplateModel::Enumerated(declared) => {
                        &&& field.value is Enumerated
                        &&& field.value->Enumerated_0.options == declared.options
                    },
                    _ => remembered_default(field.value) == template_default(
                        template.fields[i].value,
                    ),
                }
            },
        event_builder_of(template, trace, uuid, began_at).selected_trace == Some(
            trace_item_of(trace),
        ),
{
}

/// The event that a draft becomes holds as many fields as the draft has
/// fields with a value, and every field of the event holds a value: a field
/// whose value was cleared is left out, not kept empty.
pub proof fn law_event_keeps_the_fields_with_a_value(
    builder: EventBuilderModel,
    uuid: Uuid,
    at: Timestamp,
)
    ensures
        event_built(builder, uuid, at).fields.len() == count_with_value(builder.fields),
        forall|k: int|
            0 <= k < event_built(builder, uuid, at).fields.len() ==> (#[trigger] event_built(
                builder,
                uuid,
                at,
            ).fields[k]).value is Some,
{
    lemma_resolved_fields_count(builder.fields);
}

/// A trace that was saved is found under the identifier it was saved under,
/// and whatever shows it in full shows the draft's name and no completion.
pub proof fn law_saved_trace_is_viewed(
    store: StoreModel,
    builder: TraceBuilderModel,
    uuid: Uuid,
    at: Timestamp,
    view: TraceViewModel,
)
    requires
        store.with_saved_trace(builder, uuid, at).shows_trace(
            store.with_saved_trace(builder, uuid, at).traces[uuid],
            view,
        ),
    ensures
        store.with_saved_trace(builder, uuid, at).traces.contains_key(uuid),
        view.trace_uuid == uuid,
        view.name == builder.name,
        view.completion is None,
{
}

/// A completed trace is in no listing of traces, whatever the scope.
pub proof fn law_completed_trace_is_not_listed(
    store: StoreModel,
    key: Uuid,
    at: Timestamp,
    scope: Option<Uuid>,
)
    ensures
        !store.completed(key, at).listed_traces(scope).contains(key),
{
}

/// A completed trace is still there, and whatever shows it in full shows its
/// completion.
pub proof fn law_completed_trace_is_still_viewed(
    store: StoreModel,
    key: Uuid,
    at: Timestamp,
    view: TraceViewModel,
)
    requires
        store.traces.contains_key(key),
        store.completed(key, at).shows_trace(store.completed(key, at).traces[key], view),
    ensures
        store.completed(key, at).traces.contains_key(key),
        view.completion == Some(at),
        view.name == store.traces[key].name,
{
}

/// Completing a trace changes nothing but that trace's completion.
pub proof fn law_completion_changes_one_trace(
    store: StoreModel,
    key: Uuid,
    at: Timestamp,
    other: Uuid,
)
    requires
        other != key,
    ensures
        store.completed(key, at).traces.contains_key(other) == store.traces.contains_key(other),
        store.completed(key, at).traces[other] == store.traces[other],
        store.completed(key, at).events == store.events,
        store.completed(key, at).event_templates == store.event_templates,
        store.completed(key, at).trace_templates == store.trace_templates,
        store.completed(key, at).projects == store.projects,
{
}

/// After an event of the template `a`, a trace whose only transition leads
/// from `a` to `b` and `c` is offered exactly `b` and `c` as the next step.
pub proof fn law_transition_gives_the_next_steps(
    template: TraceTemplateModel,
    a: Uuid,
    b: Uuid,
    c: Uuid,
)
    requires
        template.flow == seq![TraceFlowEntryModel { from: a, to: seq![b, c] }],
    ensures
        suggested_event_templates(template, Some(a)) == set![b, c],
{
    let flow = template.flow;
    assert(leads_to(flow, a, b, 0, 0));
    assert(leads_to(flow, a, c, 0, 1));
    assert(suggested_event_templates(template, Some(a)) =~= set![b, c]);
}

/// The view of a trace sorts the event templates of its trace template into
/// two listings that share nothing and together hold them all: those that
/// are a next step, and the others. An event template of another trace
/// template is in neither.
pub proof fn law_suggested_and_other_part_the_offer(store: StoreModel, trace: TraceModel)
    ensures
        store.suggested_keys(trace).disjoint(store.other_keys(trace)),
        forall|key: Uuid|
            store.offered(trace, key) <==> #[trigger] store.suggested_keys(trace).contains(key)
                || store.other_keys(trace).contains(key),
        forall|key: Uuid| #[trigger]
            store.suggested_keys(trace).contains(key) ==> store.next_steps(trace).contains(
                store.event_templates[key].event_template_uuid,
            ),
{
}

/// A trace without events stands at the `from` of the first transition of
/// its template: what may follow that is suggested.
pub proof fn law_trace_without_events_starts_at_the_first_transition(template: TraceTemplateModel)
    requires
        template.flow.len() > 0,
    ensures
        current_event_template(template, None) == Some(template.flow[0].from),
        suggested_event_templates(template, None) == successors(
            template.flow,
            template.flow[0].from,
        ),
{
}

/// A template without transitions suggests nothing, whatever came last.
pub proof fn law_no_transitions_no_suggestions(template: TraceTemplateModel, last: Option<Uuid>)
    requires
        template.flow.len() == 0,
    ensures
        suggested_event_templates(template, last) == Set::<Uuid>::empty(),
{
    assert(suggested_event_templates(template, last) =~= Set::<Uuid>::empty());
}

/// Where the store does not hold the template of a trace, the view of the
/// trace suggests nothing and offers nothing else.
pub proof fn law_missing_trace_template_offers_nothing(store: StoreModel, trace: TraceModel)
    requires
        !store.trace_templates.contains_key(trace.trace_template_uuid),
    ensures
        store.suggested_keys(trace) == Set::<Uuid>::empty(),
        store.other_keys(trace) == Set::<Uuid>::empty(),
{
    assert(store.suggested_keys(trace) =~= Set::<Uuid>::empty());
    assert(store.other_keys(trace) =~= Set::<Uuid>::empty());
}

/// No option at or after `from` is found by a name that no option has as
/// name or label.
pub proof fn lemma_no_option_named(options: Seq<EnumerationOptionModel>, wanted: Seq<char>, from: int)
    requires
        0 <= from,
        forall|i: int|
            0 <= i < options.len() ==> (#[trigger] options[i]).name != wanted && options[i].label
                != wanted,
    ensures
        option_named(options, wanted, from) is None,
    decreases options.len() - from,
{
    if from < options.len() {
        lemma_no_option_named(options, wanted, from + 1);
    }
}

/// An enumerated field whose default names none of its options, neither by
/// name nor by label, is refused.
pub proof fn law_default_outside_the_options_is_refused(
    val: JsonValue,
    items: Seq<JsonValue>,
    options: Seq<EnumerationOptionModel>,
    wanted: Seq<char>,
)
    requires
        val.is_object(),
        val.field("options"@) matches Some(member) && member.items() == Some(items),
        collected(options_of(items)) is Ok,
        collected(options_of(items))->Ok_0 == options,
        val.field("default-value"@) matches Some(default) && default.text() == Some(wanted),
        forall|i: int|
            0 <= i < options.len() ==> (#[trigger] options[i]).name != wanted && options[i].label
                != wanted,
    ensures
        enumerated_template_of(val) is Err,
        enumerated_template_of(val)->Err_0 == "Default value "@ + wanted
            + " not found in options"@,
{
    lemma_no_option_named(options, wanted, 0);
}

/// A project loaded without its data brings its templates and neither
/// events nor traces.
pub proof fn law_project_without_data_brings_templates_only(
    store: StoreModel,
    project: ProjectModel,
    definition: ProjectDefinitionModel,
)
    ensures
        store.loaded(Some(project), Some(definition), None).events == store.events,
        store.loaded(Some(project), Some(definition), None).traces == store.traces,
        store.loaded(Some(project), Some(definition), None) == store.with_project(
            project,
        ).with_definition(definition),
{
}

/// A listing of a set has as many items as the set has members. The keys
/// that it goes by are the members, each once, and each item is the item of
/// its key.
pub proof fn law_listing_shows_each_member_once<T>(
    items: Seq<T>,
    set: Set<Uuid>,
    item_of: spec_fn(Uuid) -> T,
) -> (keys: Seq<Uuid>)
    requires
        is_listing(items, set, item_of),
    ensures
        listed_by(keys, items, set, item_of),
        set.finite(),
        items.len() == set.len(),
        keys.len() == items.len(),
        forall|i: int|
            0 <= i < keys.len() ==> set.contains(#[trigger] keys[i]) && items[i] == item_of(
                keys[i],
            ),
        forall|key: Uuid| #[trigger] set.contains(key) ==> keys.contains(key),
{
    let keys = choose|keys: Seq<Uuid>| listed_by(keys, items, set, item_of);
    keys.unique_seq_to_set();
    vstd::seq_lib::seq_to_set_is_finite(keys);
    assert forall|i: int| 0 <= i < keys.len() implies set.contains(#[trigger] keys[i]) by {
        assert(keys.contains(keys[i]));
    }
    keys
}

/// A field whose value was cleared is left out of the event: the event holds
/// what it would hold had the draft never had that field, and fewer fields
/// than the draft.
pub proof fn law_cleared_field_is_left_out(suggestions: Seq<FieldSuggestionModel>, at: int)
    requires
        0 <= at < suggestions.len(),
        resolved_value(suggestions[at].value) is None,
    ensures
        resolved_fields(suggestions) == resolved_fields(suggestions.remove(at)),
        resolved_fields(suggestions).len() < suggestions.len(),
    decreases suggestions.len(),
{
    let shorter = suggestions.drop_last();
    if at == suggestions.len() - 1 {
        assert(suggestions.remove(at) =~= shorter);
        lemma_resolved_fields_bound(shorter);
    } else {
        law_cleared_field_is_left_out(shorter, at);
        assert(suggestions.remove(at).drop_last() =~= shorter.remove(at));
        assert(suggestions.remove(at).last() == suggestions.last());
    }
}

/// A record holds at most as many fields as the draft.
pub proof fn lemma_resolved_fields_bound(suggestions: Seq<FieldSuggestionModel>)
    ensures
        resolved_fields(suggestions).len() <= suggestions.len(),
    decreases suggestions.len(),
{
    if suggestions.len() > 0 {
        lemma_resolved_fields_bound(suggestions.drop_last());
    }
}

/// Records that are put in under their own keys leave a map in which every
/// record stands under its own key as one.
pub proof fn lemma_put_all_keeps_the_keys<T>(
    map: Map<Uuid, T>,
    records: Seq<T>,
    key_of: spec_fn(T) -> Uuid,
)
    requires
        forall|key: Uuid| #[trigger] map.contains_key(key) ==> key_of(map[key]) == key,
    ensures
        forall|key: Uuid| #[trigger]
            put_all(map, records, key_of).contains_key(key) ==> key_of(
                put_all(map, records, key_of)[key],
            ) == key,
    decreases records.len(),
{
    if records.len() > 0 {
        let before = put_all(map, records.drop_last(), key_of);
        let last = records.last();
        lemma_put_all_keeps_the_keys(map, records.drop_last(), key_of);
        assert(put_all(map, records, key_of) == before.insert(key_of(last), last));
        assert forall|key: Uuid| #[trigger]
            put_all(map, records, key_of).contains_key(key) implies key_of(
            put_all(map, records, key_of)[key],
        ) == key by {
            if key != key_of(last) {
                assert(before.contains_key(key));
            }
        }
    }
}

/// The empty repository holds every record under its own identifier.
pub proof fn law_empty_repository_is_well_keyed(directory: Seq<char>)
    ensures
        StoreModel::empty(directory).well_keyed(),
{
}

/// A save and a completion keep every record under its own identifier.
pub proof fn law_saving_keeps_the_keys(
    store: StoreModel,
    event: EventBuilderModel,
    trace: TraceBuilderModel,
    uuid: Uuid,
    at: Timestamp,
)
    requires
        store.well_keyed(),
    ensures
        store.with_saved_event(event, uuid, at).well_keyed(),
        store.with_saved_trace(trace, uuid, at).well_keyed(),
        store.completed(uuid, at).well_keyed(),
{
}

/// Putting in a project, a definition or the data of a project keeps every
/// record under its own identifier.
pub proof fn law_putting_in_keeps_the_keys(
    store: StoreModel,
    project: ProjectModel,
    definition: ProjectDefinitionModel,
    data: ProjectDataModel,
)
    requires
        store.well_keyed(),
    ensures
        store.with_project(project).well_keyed(),
        store.with_definition(definition).well_keyed(),
        store.with_data(data).well_keyed(),
{
    lemma_put_all_keeps_the_keys(
        store.event_templates,
        definition.event_templates,
        crate::store::event_template_key(),
    );
    lemma_put_all_keeps_the_keys(
        store.trace_templates,
        definition.trace_templates,
        crate::store::trace_template_key(),
    );
    lemma_put_all_keeps_the_keys(store.events, data.events, crate::store::event_key());
    lemma_put_all_keeps_the_keys(store.traces, data.traces, crate::store::trace_key());
}

/// A load and an import keep every record under its own identifier.
pub proof fn law_loading_keeps_the_keys(
    store: StoreModel,
    project: Option<ProjectModel>,
    definition: Option<ProjectDefinitionModel>,
    data: Option<ProjectDataModel>,
    name: Seq<char>,
    doc: JsonValue,
    now: Timestamp,
)
    requires
        store.well_keyed(),
    ensures
        store.loaded(project, definition, data).well_keyed(),
        imported(store, name, doc, now) matches Ok(after) ==> after.well_keyed(),
{
    let blank_definition = ProjectDefinitionModel {
        project_uuid: 0,
        event_templates: Seq::empty(),
        trace_templates: Seq::empty(),
    };
    let blank_data = ProjectDataModel { project_uuid: 0, events: Seq::empty(), traces: Seq::empty() };
    match project {
        Some(p) => {
            law_putting_in_keeps_the_keys(store, p, blank_definition, blank_data);
            match definition {
                Some(d) => {
                    law_putting_in_keeps_the_keys(store.with_project(p), p, d, blank_data);
                    match data {
                        Some(x) => {
                            law_putting_in_keeps_the_keys(
                                store.with_project(p).with_definition(d),
                                p,
                                d,
                                x,
                            );
                        },
                        None => {},
                    }
                },
                None => {},
            }
        },
        None => {},
    }
    match definition_of(doc, now) {
        Ok(d) => {
            let p = ProjectModel { project_uuid: d.project_uuid, name, created_at: now };
            law_putting_in_keeps_the_keys(store, p, d, blank_data);
            law_putting_in_keeps_the_keys(store.with_project(p), p, d, blank_data);
        },
        Err(_) => {},
    }
}

/// Where every record stands under its own identifier, the entry of a
/// record in a listing carries the key that the record is stored under: a
/// listing shows no identifier twice.
pub proof fn law_entries_carry_their_keys(store: StoreModel, key: Uuid)
    requires
        store.well_keyed(),
    ensures
        store.events.contains_key(key) ==> store.event_listing(key).event_uuid == key,
        store.traces.contains_key(key) ==> store.trace_listing(key).trace_uuid == key,
        store.event_templates.contains_key(key) ==> store.event_template_listing(
            key,
        ).event_template_uuid == key,
        store.trace_templates.contains_key(key) ==> store.trace_template_listing(
            key,
        ).trace_template_uuid == key,
        forall|trace_uuid: Uuid|
            store.event_templates.contains_key(key) ==> (#[trigger] store.offered_item(
                trace_uuid,
                key,
            )).event_template_uuid == key,
{
}

/// A list of steps fails as a whole exactly when one of its steps fails.
pub proof fn law_one_failure_fails_the_list<T>(outcomes: Seq<Result<T, Seq<char>>>)
    ensures
        collected(outcomes) is Err <==> exists|i: int|
            0 <= i < outcomes.len() && (#[trigger] outcomes[i]) is Err,
{
    if exists|i: int| 0 <= i < outcomes.len() && (#[trigger] outcomes[i]) is Err {
        assert(!all_ok(outcomes));
    }
}

/// An import keeps nothing of a document that it refuses, and refuses a
/// document exactly when the definition in it is malformed.
pub proof fn law_refused_import_keeps_nothing(
    store: StoreModel,
    name: Seq<char>,
    doc: JsonValue,
    now: Timestamp,
)
    ensures
        imported(store, name, doc, now) is Err <==> definition_of(doc, now) is Err,
        imported(store, name, doc, now) matches Err(message) ==> definition_of(doc, now)->Err_0
            == message,
{
}

/// A draft that is anchored to no trace meets the demand of no function
/// that makes or saves an event, and the event of a draft that is anchored
/// stands on the very trace that the draft selected: no event is ever given
/// a trace that was made up for it.
pub proof fn law_event_needs_its_trace(builder: EventBuilder, uuid: Uuid, at: Timestamp)
    ensures
        builder.selected_trace is Unselected ==> !builder.anchored(),
        builder.anchored() <==> builder@.selected_trace is Some,
        builder.selected_trace matches TraceSelection::Selected(trace) ==> event_built(
            builder@,
            uuid,
            at,
        ).trace_uuid == trace.trace_uuid,
{
}

/// A template that was given no time of use counts as last used when it was
/// created, and one that was given a time, at that time.
pub proof fn law_unused_template_counts_from_its_creation(
    event_template: EventTemplateModel,
    trace_template: TraceTemplateModel,
    at: Timestamp,
)
    ensures
        event_template_item(event_template, None).last_used == event_template.created_at,
        event_template_item(event_template, Some(at)).last_used == at,
        trace_template_item(trace_template, None).last_used == Some(trace_template.created_at),
        trace_template_item(trace_template, Some(at)).last_used == Some(at),
{
}

/// A trace without events shows its template, and every event template that
/// it offers, as last used when the template was created.
pub proof fn law_trace_without_events_shows_templates_from_their_creation(
    store: StoreModel,
    trace: TraceModel,
    view: TraceViewModel,
    key: Uuid,
)
    requires
        store.last_event(trace.trace_uuid) is None,
        store.shows_trace(trace, view),
    ensures
        view.trace_template matches Some(item) ==> item.last_used == Some(
            store.trace_templates[trace.trace_template_uuid].created_at,
        ),
        store.offered_item(trace.trace_uuid, key).last_used
            == store.event_templates[key].created_at,
{
}

/// The map `map` with the record of every key of `keys` put in under that
/// key.
pub open spec fn overlaid<T>(map: Map<Uuid, T>, keys: Seq<Uuid>, record_of: spec_fn(Uuid) -> T)
    -> Map<Uuid, T> {
    Map::new(
        |key: Uuid| map.contains_key(key) || keys.contains(key),
        |key: Uuid|
            if keys.contains(key) {
                record_of(key)
            } else {
                map[key]
            },
    )
}

/// Putting in the records of a listing, each of which names the key it was
/// listed under, leaves the listed keys with their records and every other
/// key as it was.
pub proof fn lemma_put_all_of_a_listing<T>(
    map: Map<Uuid, T>,
    keys: Seq<Uuid>,
    record_of: spec_fn(Uuid) -> T,
    key_of: spec_fn(T) -> Uuid,
)
    requires
        forall|i: int| 0 <= i < keys.len() ==> key_of(record_of(#[trigger] keys[i])) == keys[i],
    ensures
        put_all(map, keys.map_values(record_of), key_of) == overlaid(map, keys, record_of),
    decreases keys.len(),
{
    let records = keys.map_values(record_of);
    if keys.len() > 0 {
        let fewer = keys.drop_last();
        let last = keys.last();
        lemma_put_all_of_a_listing(map, fewer, record_of, key_of);
        assert(records.drop_last() =~= fewer.map_values(record_of));
        assert(records.last() == record_of(last));
        assert(key_of(record_of(keys[keys.len() - 1])) == last);
        assert(put_all(map, records, key_of) == overlaid(map, fewer, record_of).insert(
            last,
            record_of(last),
        ));
        assert forall|key: Uuid| keys.contains(key) <==> fewer.contains(key) || key == last by {
            if fewer.contains(key) {
                let at = choose|at: int| 0 <= at < fewer.len() && fewer[at] == key;
                assert(keys[at] == key);
            }
            if key == last {
                assert(keys[keys.len() - 1] == key);
            }
            if keys.contains(key) && key != last {
                let at = choose|at: int| 0 <= at < keys.len() && keys[at] == key;
                assert(fewer[at] == key);
            }
        }
        assert(overlaid(map, fewer, record_of).insert(last, record_of(last)) =~= overlaid(
            map,
            keys,
            record_of,
        ));
    } else {
        assert forall|key: Uuid| !keys.contains(key) by {}
        assert(put_all(map, records, key_of) =~= overlaid(map, keys, record_of));
    }
}

/// What was collected of a project and is loaded into an empty repository
/// is there again: the project, and of templates, events and traces exactly
/// those that the project owned, each as it was.
pub proof fn law_loading_what_was_collected_restores_the_project(
    store: StoreModel,
    key: Uuid,
    documents: ProjectDocumentsModel,
    directory: Seq<char>,
)
    requires
        store.well_keyed(),
        store.projects.contains_key(key),
        store.holds_documents_of(key, documents),
    ensures
        ({
            let loaded = StoreModel::empty(directory).loaded(
                Some(documents.project),
                Some(documents.definition),
                Some(documents.data),
            );
            &&& loaded.well_keyed()
            &&& loaded.projects == Map::<Uuid, ProjectModel>::empty().insert(
                key,
                store.projects[key],
            )
            &&& loaded.event_templates == store.event_templates.restrict(
                store.listed_event_templates(Some(key)),
            )
            &&& loaded.trace_templates == store.trace_templates.restrict(
                store.listed_trace_templates(Some(key)),
            )
            &&& loaded.events == store.events.restrict(store.listed_events(Some(key)))
            &&& loaded.traces == store.traces.restrict(store.owned_traces(key))
        }),
{
    let blank = StoreModel::empty(directory);
    let loaded = blank.loaded(
        Some(documents.project),
        Some(documents.definition),
        Some(documents.data),
    );
    law_loading_keeps_the_keys(
        blank,
        Some(documents.project),
        Some(documents.definition),
        Some(documents.data),
        Seq::empty(),
        arbitrary(),
        0,
    );
    let event_template_keys = law_listing_shows_each_member_once(
        documents.definition.event_templates,
        store.listed_event_templates(Some(key)),
        store.event_template_records(),
    );
    lemma_put_all_of_a_listing(
        blank.event_templates,
        event_template_keys,
        store.event_template_records(),
        crate::store::event_template_key(),
    );
    assert(loaded.event_templates =~= store.event_templates.restrict(
        store.listed_event_templates(Some(key)),
    ));
    let trace_template_keys = law_listing_shows_each_member_once(
        documents.definition.trace_templates,
        store.listed_trace_templates(Some(key)),
        store.trace_template_records(),
    );
    lemma_put_all_of_a_listing(
        blank.trace_templates,
        trace_template_keys,
        store.trace_template_records(),
        crate::store::trace_template_key(),
    );
    assert(loaded.trace_templates =~= store.trace_templates.restrict(
        store.listed_trace_templates(Some(key)),
    ));
    let event_keys = law_listing_shows_each_member_once(
        documents.data.events,
        store.listed_events(Some(key)),
        store.event_records(),
    );
    lemma_put_all_of_a_listing(
        blank.events,
        event_keys,
        store.event_records(),
        crate::store::event_key(),
    );
    assert(loaded.events =~= store.events.restrict(store.listed_events(Some(key))));
    let trace_keys = law_listing_shows_each_member_once(
        documents.data.traces,
        store.owned_traces(key),
        store.trace_records(),
    );
    lemma_put_all_of_a_listing(
        blank.traces,
        trace_keys,
        store.trace_records(),
        crate::store::trace_key(),
    );
    assert(loaded.traces =~= store.traces.restrict(store.owned_traces(key)));
    assert(loaded.projects =~= Map::<Uuid, ProjectModel>::empty().insert(
        key,
        store.projects[key],
    ));
}

} // verus!
