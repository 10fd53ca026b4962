//! From a finished draft to the record that is persisted.

use vstd::prelude::*;
use vstd::pervasive::unreached;
use crate::clock::{now_utc, Timestamp};
use crate::events::{
    Event, EventModel, Field, FieldModel, FieldValue, FieldValueModel, Trace, TraceModel,
};
use crate::ident::{fresh_uuid, is_random_uuid, Uuid};
use crate::model::{clone_texts, views};
use crate::service::{
    EventBuilder, EventBuilderModel, FieldSuggestion, FieldSuggestionModel, FieldValueSuggestion,
    FieldValueSuggestionModel, TraceBuilder, TraceBuilderModel, TraceSelection,
};

verus! {

/// The value that a draft resolves to: its current value, whatever its
/// default is; nothing where no value is set.
pub open spec fn resolved_value(suggestion: FieldValueSuggestionModel) -> Option<FieldValueModel> {
    match suggestion {
        FieldValueSuggestionModel::Number(s) => match s.value {
            Some(value) => Some(FieldValueModel::Number(value)),
            None => None,
        },
        FieldValueSuggestionModel::Text(s) => match s.value {
            Some(value) => Some(FieldValueModel::Text(value)),
            None => None,
        },
        FieldValueSuggestionModel::Bool(s) => match s.value {
            Some(value) => Some(FieldValueModel::Bool(value)),
            None => None,
        },
        FieldValueSuggestionModel::Enumerated(s) => match s.selected {
            Some(option) => Some(FieldValueModel::Enumerated(option)),
            None => None,
        },
    }
}

/// The field that a draft resolves to: none where no value is set.
pub open spec fn resolved_field(suggestion: FieldSuggestionModel) -> Option<FieldModel> {
    match resolved_value(suggestion.value) {
        Some(value) => Some(
            FieldModel { name: suggestion.name, label: suggestion.label, value: Some(value) },
        ),
        None => None,
    }
}

/// The fields that a list of drafts resolves to: in the drafts' order, with
/// every draft without a value left out.
pub open spec fn resolved_fields(suggestions: Seq<FieldSuggestionModel>) -> Seq<FieldModel>
    decreases suggestions.len(),
{
    if suggestions.len() == 0 {
        Seq::empty()
    } else {
        let before = resolved_fields(suggestions.drop_last());
        match resolved_field(suggestions.last()) {
            Some(field) => before.push(field),
            None => before,
        }
    }
}

/// How many drafts of a list have a value.
pub open spec fn count_with_value(suggestions: Seq<FieldSuggestionModel>) -> nat
    decreases suggestions.len(),
{
    if suggestions.len() == 0 {
        0
    } else {
        count_with_value(suggestions.drop_last()) + if resolved_value(suggestions.last().value)
            is Some {
            1nat
        } else {
            0nat
        }
    }
}

/// The trace that a draft becomes under the identifier `trace_uuid`, created
/// at `created_at`: not completed, and with no origins. The origins that the
/// draft collected are not carried over to the record.
pub open spec fn trace_built(builder: TraceBuilderModel, trace_uuid: Uuid, created_at: Timestamp)
    -> TraceModel {
    TraceModel {
        trace_uuid,
        trace_template_uuid: builder.trace_template.uuid,
        origin_trace_uuids: Seq::empty(),
        created_at,
        name: builder.name,
        completion: None,
    }
}

/// The event that a draft with a selected trace becomes under the identifier
/// `event_uuid`, created at `created_at`.
pub open spec fn event_built(builder: EventBuilderModel, event_uuid: Uuid, created_at: Timestamp)
    -> EventModel
    recommends
        builder.selected_trace is Some,
{
    EventModel {
        event_uuid,
        event_template_uuid: builder.event_template.uuid,
        trace_uuid: builder.selected_trace->Some_0.trace_uuid,
        fields: resolved_fields(builder.fields),
        tags: builder.tags,
        began_at: builder.began_at,
        created_at,
    }
}

/// The trace that the draft becomes under the identifier and time given.
pub fn build_trace_with(trace_builder: &TraceBuilder, trace_uuid: Uuid, created_at: Timestamp) -> (r:
    Trace)
    ensures
        r@ == trace_built(trace_builder@, trace_uuid, created_at),
{
    Trace {
        trace_uuid,
        trace_template_uuid: trace_builder.trace_template.trace_template_uuid,
        created_at,
        name: trace_builder.name.clone(),
        completion: None,
        origin_trace_uuids: Vec::new(),
    }
}

/// The trace that the draft becomes, under a fresh identifier and created
/// now.
pub fn build_trace(trace_builder: &TraceBuilder) -> (r: Trace)
    ensures
        r@ == trace_built(trace_builder@, r.trace_uuid, r.created_at),
        is_random_uuid(r.trace_uuid),
        0 <= r.created_at,
{
    let trace_uuid = fresh_uuid();
    let created_at = now_utc();
    build_trace_with(trace_builder, trace_uuid, created_at)
}

/// The event that the draft becomes under the identifier and time given.
///
/// An event is anchored to exactly one trace: a draft without a selected
/// trace cannot become one. The call is not allowed on such a draft, and
/// where it is made all the same it stops the program before any event is
/// made.
pub fn build_event_with(event_builder: &EventBuilder, event_uuid: Uuid, created_at: Timestamp) -> (r:
    Event)
    requires
        event_builder.anchored(),
    ensures
        r@ == event_built(event_builder@, event_uuid, created_at),
{
    let trace_uuid = match &event_builder.selected_trace {
        TraceSelection::Unselected => unreached(),
        TraceSelection::Selected(trace) => trace.trace_uuid,
    };
    let mut fields: Vec<Field> = Vec::new();
    let mut i: usize = 0;
    while i < event_builder.fields.len()
        invariant
            i <= event_builder.fields.len(),
            views(fields@) == resolved_fields(views(event_builder.fields@).take(i as int)),
        decreases event_builder.fields.len() - i,
    {
        proof {
            let all = views(event_builder.fields@);
            assert(all.take(i + 1).drop_last() =~= all.take(i as int));
        }
        match build_field_suggestion(&event_builder.fields[i]) {
            Some(field) => {
                let ghost before = views(fields@);
                fields.push(field);
                assert(views(fields@) =~= before.push(field@));
            },
            None => {},
        }
        i = i + 1;
    }
    proof {
        let all = views(event_builder.fields@);
        assert(all.take(all.len() as int) =~= all);
    }
    Event {
        event_uuid,
        event_template_uuid: event_builder.event_template.event_template_uuid,
        trace_uuid,
        fields,
        tags: clone_texts(&event_builder.tags),
        began_at: event_builder.began_at,
        created_at,
    }
}

/// The event that the draft becomes, under a fresh identifier and created
/// now. The draft must be anchored to a trace, as for
/// [`build_event_with`].
pub fn build_event(event_builder: &EventBuilder) -> (r: Event)
    requires
        event_builder.anchored(),
    ensures
        r@ == event_built(event_builder@, r.event_uuid, r.created_at),
        is_random_uuid(r.event_uuid),
        0 <= r.created_at,
{
    let event_uuid = fresh_uuid();
    let created_at = now_utc();
    build_event_with(event_builder, event_uuid, created_at)
}

/// The value that the draft resolves to.
pub fn build_field_value_suggestion(field_value_suggestion: &FieldValueSuggestion) -> (r: Option<
    FieldValue,
>)
    ensures
        crate::model::opt_view(r) == resolved_value(field_value_suggestion@),
{
    match field_value_suggestion {
        FieldValueSuggestion::Number(suggestion) => match suggestion.value {
            Some(value) => Some(FieldValue::Number(value)),
            None => None,
        },
        FieldValueSuggestion::Text(suggestion) => match &suggestion.value {
            Some(value) => Some(FieldValue::Text(value.clone())),
            None => None,
        },
        FieldValueSuggestion::Bool(suggestion) => match suggestion.value {
            Some(value) => Some(FieldValue::Bool(value)),
            None => None,
        },
        FieldValueSuggestion::Enumerated(suggestion) => match &suggestion.selected {
            Some(value) => Some(FieldValue::Enumerated(value.clone())),
            None => None,
        },
    }
}

/// The field that the draft resolves to.
pub fn build_field_suggestion(field_suggestion: &FieldSuggestion) -> (r: Option<Field>)
    ensures
        crate::model::opt_view(r) == resolved_field(field_suggestion@),
{
    match build_field_value_suggestion(&field_suggestion.value) {
        Some(value) => Some(
            Field {
                name: field_suggestion.name.clone(),
                label: field_suggestion.label.clone(),
                value: Some(value),
            },
        ),
        None => None,
    }
}

/// A record holds as many fields as the draft has fields with a value, and
/// each of them holds a value.
pub proof fn lemma_resolved_fields_count(suggestions: Seq<FieldSuggestionModel>)
    ensures
        resolved_fields(suggestions).len() == count_with_value(suggestions),
        forall|k: int|
            0 <= k < resolved_fields(suggestions).len() ==> (#[trigger] resolved_fields(
                suggestions,
            )[k]).value is Some,
    decreases suggestions.len(),
{
    if suggestions.len() > 0 {
        lemma_resolved_fields_count(suggestions.drop_last());
    }
}

} // verus!
