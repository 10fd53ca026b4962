//! Templates: the declared shape of events and the transitions that a trace
//! allows between them.

use vstd::prelude::*;
use std::collections::HashSet;
use crate::clock::{now_utc, Timestamp};
use crate::ident::{fresh_uuid, is_random_uuid, Uuid};
use crate::json::Number;
use crate::model::{clone_opt_text, clone_texts, opt_view, views};
use crate::service::{
    BoolSuggestion, EnumeratedSuggestion, EnumeratedSuggestionModel, EventBuilder,
    EventBuilderModel, FieldSuggestion, FieldSuggestionModel, FieldValueSuggestion,
    FieldValueSuggestionModel, NumberSuggestion, RenameMe_EventTemplate, RenameMe_TraceTemplate,
    SuggestionModel, TemplateRefModel, TextSuggestion, TraceBuilder, TraceBuilderModel,
    TraceSelection,
};
use crate::views::{
    clone_options, trace_item_of, EnumerationOption, EnumerationOptionModel,
    EventTemplateItemModel, EventTemplateItemView, TraceItemView, TraceTemplateItemModel,
    TraceTemplateItemView, TraceView, TraceViewModel,
};

verus! {

broadcast use vstd::std_specs::hash::group_hash_axioms;

/// The shape of a number field: its default, if it has one.
#[derive(Clone, Copy, Debug, PartialEq, Eq, Structural)]
pub struct NumberTemplate {
    pub default_value: Option<Number>,
}

impl View for NumberTemplate {
    type V = Option<Number>;

    open spec fn view(&self) -> Option<Number> {
        self.default_value
    }
}

/// The shape of a text field: its default, if it has one.
#[derive(Clone, Debug, PartialEq, Eq)]
pub struct TextTemplate {
    pub default_value: Option<String>,
}

impl View for TextTemplate {
    type V = Option<Seq<char>>;

    open spec fn view(&self) -> Option<Seq<char>> {
        opt_view(self.default_value)
    }
}

/// The shape of a boolean field: its default, if it has one.
#[derive(Clone, Copy, Debug, PartialEq, Eq, Structural)]
pub struct BoolTemplate {
    pub default_value: Option<bool>,
}

impl View for BoolTemplate {
    type V = Option<bool>;

    open spec fn view(&self) -> Option<bool> {
        self.default_value
    }
}

/// The shape of an enumerated field: its options and its default, if it has
/// one.
#[derive(Clone, Debug, PartialEq, Eq)]
pub struct EnumeratedTemplate {
    pub default_value: Option<EnumerationOption>,
    pub options: Vec<EnumerationOption>,
}

/// What an [`EnumeratedTemplate`] holds, as mathematics.
pub struct EnumeratedTemplateModel {
    pub default_value: Option<EnumerationOptionModel>,
    pub options: Seq<EnumerationOptionModel>,
}

impl View for EnumeratedTemplate {
    type V = EnumeratedTemplateModel;

    open spec fn view(&self) -> EnumeratedTemplateModel {
        EnumeratedTemplateModel {
            default_value: opt_view(self.default_value),
            options: views(self.options@),
        }
    }
}

/// The kind of value that a field takes, with its default.
#[derive(Debug, PartialEq, Eq)]
pub enum FieldValueTemplate {
    Number(NumberTemplate),
    Text(TextTemplate),
    Bool(BoolTemplate),
    Enumerated(EnumeratedTemplate),
}

/// What a [`FieldValueTemplate`] holds, as mathematics.
pub enum FieldValueTemplateModel {
    Number(Option<Number>),
    Text(Option<Seq<char>>),
    Bool(Option<bool>),
    Enumerated(EnumeratedTemplateModel),
}

impl View for FieldValueTemplate {
    type V = FieldValueTemplateModel;

    open spec fn view(&self) -> FieldValueTemplateModel {
        match self {
            FieldValueTemplate::Number(t) => FieldValueTemplateModel::Number(t@),
            FieldValueTemplate::Text(t) => FieldValueTemplateModel::Text(t@),
            FieldValueTemplate::Bool(t) => FieldValueTemplateModel::Bool(t@),
            FieldValueTemplate::Enumerated(t) => FieldValueTemplateModel::Enumerated(t@),
        }
    }
}

impl Clone for FieldValueTemplate {
    fn clone(&self) -> (r: Self)
        ensures
            r@ == self@,
    {
        match self {
            FieldValueTemplate::Number(t) => FieldValueTemplate::Number(*t),
            FieldValueTemplate::Text(t) => FieldValueTemplate::Text(
                TextTemplate { default_value: clone_opt_text(&t.default_value) },
            ),
            FieldValueTemplate::Bool(t) => FieldValueTemplate::Bool(*t),
            FieldValueTemplate::Enumerated(t) => FieldValueTemplate::Enumerated(
                EnumeratedTemplate {
                    default_value: match &t.default_value {
                        Some(option) => Some(option.clone()),
                        None => None,
                    },
                    options: clone_options(&t.options),
                },
            ),
        }
    }
}

/// The declared shape of one field: it holds no live value.
#[derive(Debug, PartialEq, Eq)]
pub struct FieldTemplate {
    pub name: String,
    pub label: String,
    pub value: FieldValueTemplate,
}

/// What a [`FieldTemplate`] holds, as mathematics.
pub struct FieldTemplateModel {
    pub name: Seq<char>,
    pub label: Seq<char>,
    pub value: FieldValueTemplateModel,
}

impl View for FieldTemplate {
    type V = FieldTemplateModel;

    open spec fn view(&self) -> FieldTemplateModel {
        FieldTemplateModel { name: self.name@, label: self.label@, value: self.value@ }
    }
}

impl Clone for FieldTemplate {
    fn clone(&self) -> (r: Self)
        ensures
            r@ == self@,
    {
        FieldTemplate {
            name: self.name.clone(),
            label: self.label.clone(),
            value: self.value.clone(),
        }
    }
}

/// The declared shape of an event.
#[derive(Debug, PartialEq, Eq)]
pub struct EventTemplate {
    pub event_template_uuid: Uuid,
    pub trace_template_uuid: Uuid,
    pub name: String,
    pub fields: Vec<FieldTemplate>,
    pub default_tags: Vec<String>,
    pub created_at: Timestamp,
}

/// What an [`EventTemplate`] holds, as mathematics.
pub struct EventTemplateModel {
    pub event_template_uuid: Uuid,
    pub trace_template_uuid: Uuid,
    pub name: Seq<char>,
    pub fields: Seq<FieldTemplateModel>,
    pub default_tags: Seq<Seq<char>>,
    pub created_at: Timestamp,
}

impl View for EventTemplate {
    type V = EventTemplateModel;

    open spec fn view(&self) -> EventTemplateModel {
        EventTemplateModel {
            event_template_uuid: self.event_template_uuid,
            trace_template_uuid: self.trace_template_uuid,
            name: self.name@,
            fields: views(self.fields@),
            default_tags: views(self.default_tags@),
            created_at: self.created_at,
        }
    }
}

impl Clone for EventTemplate {
    fn clone(&self) -> (r: Self)
        ensures
            r@ == self@,
    {
        let mut fields: Vec<FieldTemplate> = Vec::new();
        let mut i: usize = 0;
        while i < self.fields.len()
            invariant
                i <= self.fields.len(),
                fields@.len() == i,
                forall|j: int| 0 <= j < i ==> fields@[j]@ == self.fields@[j]@,
            decreases self.fields.len() - i,
        {
            fields.push(self.fields[i].clone());
            i = i + 1;
        }
        assert(views(fields@) =~= views(self.fields@));
        EventTemplate {
            event_template_uuid: self.event_template_uuid,
            trace_template_uuid: self.trace_template_uuid,
            name: self.name.clone(),
            fields,
            default_tags: clone_texts(&self.default_tags),
            created_at: self.created_at,
        }
    }
}

/// One row of the table of allowed transitions: after an event of the
/// template `from`, an event of each template in `to` may follow.
#[derive(Debug, PartialEq, Eq)]
pub struct TraceFlowEntry {
    pub from: Uuid,
    pub to: Vec<Uuid>,
}

/// What a [`TraceFlowEntry`] holds, as mathematics.
pub struct TraceFlowEntryModel {
    pub from: Uuid,
    pub to: Seq<Uuid>,
}

impl View for TraceFlowEntry {
    type V = TraceFlowEntryModel;

    open spec fn view(&self) -> TraceFlowEntryModel {
        TraceFlowEntryModel { from: self.from, to: self.to@ }
    }
}

impl Clone for TraceFlowEntry {
    fn clone(&self) -> (r: Self)
        ensures
            r@ == self@,
    {
        TraceFlowEntry { from: self.from, to: self.to.clone() }
    }
}

/// The declared shape of a trace: its name and its table of transitions.
///
/// The table may be empty or sparse, and may name event templates that the
/// store does not hold.
#[derive(Debug, PartialEq, Eq)]
pub struct TraceTemplate {
    pub trace_template_uuid: Uuid,
    pub project_uuid: Uuid,
    pub name: String,
    pub created_at: Timestamp,
    pub flow: Vec<TraceFlowEntry>,
}

/// What a [`TraceTemplate`] holds, as mathematics.
pub struct TraceTemplateModel {
    pub trace_template_uuid: Uuid,
    pub project_uuid: Uuid,
    pub name: Seq<char>,
    pub created_at: Timestamp,
    pub flow: Seq<TraceFlowEntryModel>,
}

impl View for TraceTemplate {
    type V = TraceTemplateModel;

    open spec fn view(&self) -> TraceTemplateModel {
        TraceTemplateModel {
            trace_template_uuid: self.trace_template_uuid,
            project_uuid: self.project_uuid,
            name: self.name@,
            created_at: self.created_at,
            flow: views(self.flow@),
        }
    }
}

impl Clone for TraceTemplate {
    fn clone(&self) -> (r: Self)
        ensures
            r@ == self@,
    {
        let mut flow: Vec<TraceFlowEntry> = Vec::new();
        let mut i: usize = 0;
        while i < self.flow.len()
            invariant
                i <= self.flow.len(),
                flow@.len() == i,
                forall|j: int| 0 <= j < i ==> flow@[j]@ == self.flow@[j]@,
            decreases self.flow.len() - i,
        {
            flow.push(self.flow[i].clone());
            i = i + 1;
        }
        assert(views(flow@) =~= views(self.flow@));
        TraceTemplate {
            trace_template_uuid: self.trace_template_uuid,
            project_uuid: self.project_uuid,
            name: self.name.clone(),
            created_at: self.created_at,
            flow,
        }
    }
}

/// The draft that a field starts as: the template's default is both its
/// current value and its default, and nothing was used before.
pub open spec fn initial_value(template: FieldValueTemplateModel) -> FieldValueSuggestionModel {
    match template {
        FieldValueTemplateModel::Number(default) => FieldValueSuggestionModel::Number(
            SuggestionModel { value: default, last_values: Seq::empty(), default_value: default },
        ),
        FieldValueTemplateModel::Text(default) => FieldValueSuggestionModel::Text(
            SuggestionModel { value: default, last_values: Seq::empty(), default_value: default },
        ),
        FieldValueTemplateModel::Bool(default) => FieldValueSuggestionModel::Bool(
            SuggestionModel { value: default, last_values: Seq::empty(), default_value: default },
        ),
        FieldValueTemplateModel::Enumerated(template) => FieldValueSuggestionModel::Enumerated(
            EnumeratedSuggestionModel {
                selected: template.default_value,
                last_values: Seq::empty(),
                options: template.options,
            },
        ),
    }
}

/// The draft that a field starts as, under the template's name and label.
pub open spec fn initial_field(template: FieldTemplateModel) -> FieldSuggestionModel {
    FieldSuggestionModel {
        name: template.name,
        label: template.label,
        value: initial_value(template.value),
    }
}

/// The drafts that the fields of a template start as, one for each field.
pub open spec fn initial_fields(templates: Seq<FieldTemplateModel>) -> Seq<FieldSuggestionModel> {
    Seq::new(templates.len(), |i: int| initial_field(templates[i]))
}

/// The draft of an event of the template `template` on the trace `trace`,
/// under the identifier `uuid` and begun at `began_at`: every field at its
/// default, the template's tags, and the trace selected.
pub open spec fn event_builder_of(
    template: EventTemplateModel,
    trace: TraceViewModel,
    uuid: Uuid,
    began_at: Timestamp,
) -> EventBuilderModel {
    EventBuilderModel {
        uuid,
        event_template: TemplateRefModel { uuid: template.event_template_uuid, name: template.name },
        fields: initial_fields(template.fields),
        tags: template.default_tags,
        traces: Seq::empty(),
        began_at,
        selected_trace: Some(trace_item_of(trace)),
    }
}

/// When a template counts as last used: at the time of use that is given,
/// and where none is given, at the time of its creation.
pub open spec fn last_use(created_at: Timestamp, last_used: Option<Timestamp>) -> Timestamp {
    match last_used {
        Some(at) => at,
        None => created_at,
    }
}

/// The listing entry of an event template: where no time of last use is
/// given, the time of its creation stands for it.
pub open spec fn event_template_item(template: EventTemplateModel, last_used: Option<Timestamp>)
    -> EventTemplateItemModel {
    EventTemplateItemModel {
        event_template_uuid: template.event_template_uuid,
        name: template.name,
        created_at: template.created_at,
        last_used: last_use(template.created_at, last_used),
    }
}

/// The listing entry of a trace template: where no time of last use is
/// given, the time of its creation stands for it.
pub open spec fn trace_template_item(template: TraceTemplateModel, last_used: Option<Timestamp>)
    -> TraceTemplateItemModel {
    TraceTemplateItemModel {
        trace_template_uuid: template.trace_template_uuid,
        name: template.name,
        created_at: template.created_at,
        last_used: Some(last_use(template.created_at, last_used)),
    }
}

/// The draft of a trace of the template `template`, under the identifier
/// `uuid` and begun at `began_at`: no name yet, no origins, nothing selected.
pub open spec fn trace_builder_of(template: TraceTemplateModel, uuid: Uuid, began_at: Timestamp)
    -> TraceBuilderModel {
    TraceBuilderModel {
        trace_uuid: uuid,
        name: Seq::empty(),
        trace_template: TemplateRefModel { uuid: template.trace_template_uuid, name: template.name },
        tags: Seq::empty(),
        began_at,
        origin_traces: Set::empty(),
        selected_trace: None,
    }
}

/// The event template at which a trace stands: that of its last event where
/// there is one, else the `from` of the first transition, else none.
pub open spec fn current_event_template(template: TraceTemplateModel, last: Option<Uuid>) -> Option<
    Uuid,
> {
    match last {
        Some(uuid) => Some(uuid),
        None => if template.flow.len() > 0 {
            Some(template.flow[0].from)
        } else {
            None
        },
    }
}

/// Whether the transition `entry` of `flow` leads from `current`, and has
/// `target` at the place `place` of its `to`.
pub open spec fn leads_to(
    flow: Seq<TraceFlowEntryModel>,
    current: Uuid,
    target: Uuid,
    entry: int,
    place: int,
) -> bool {
    &&& 0 <= entry < flow.len()
    &&& flow[entry].from == current
    &&& 0 <= place < flow[entry].to.len()
    &&& flow[entry].to[place] == target
}

/// The event templates that may follow `current`: the union of the `to` of
/// every transition from `current`.
pub open spec fn successors(flow: Seq<TraceFlowEntryModel>, current: Uuid) -> Set<Uuid> {
    Set::new(
        |target: Uuid| exists|entry: int, place: int| leads_to(flow, current, target, entry, place),
    )
}

/// The event templates suggested for a trace of the template `template` whose
/// last event has the template `last`.
pub open spec fn suggested_event_templates(template: TraceTemplateModel, last: Option<Uuid>) -> Set<
    Uuid,
> {
    match current_event_template(template, last) {
        Some(current) => successors(template.flow, current),
        None => Set::empty(),
    }
}

impl FieldValueTemplate {
    /// The draft that a field of this kind starts as.
    pub fn get_initial(&self) -> (r: FieldValueSuggestion)
        ensures
            r@ == initial_value(self@),
    {
        match self {
            FieldValueTemplate::Number(template) => FieldValueSuggestion::Number(
                NumberSuggestion {
                    value: template.default_value,
                    last_values: Vec::new(),
                    default_value: template.default_value,
                },
            ),
            FieldValueTemplate::Text(template) => {
                let suggestion = TextSuggestion {
                    value: clone_opt_text(&template.default_value),
                    last_values: Vec::new(),
                    default_value: clone_opt_text(&template.default_value),
                };
                assert(suggestion@.last_values =~= Seq::empty());
                FieldValueSuggestion::Text(suggestion)
            },
            FieldValueTemplate::Bool(template) => FieldValueSuggestion::Bool(
                BoolSuggestion {
                    value: template.default_value,
                    last_values: Vec::new(),
                    default_value: template.default_value,
                },
            ),
            FieldValueTemplate::Enumerated(template) => {
                let suggestion = EnumeratedSuggestion {
                    selected: match &template.default_value {
                        Some(option) => Some(option.clone()),
                        None => None,
                    },
                    last_values: Vec::new(),
                    options: clone_options(&template.options),
                };
                assert(suggestion@.last_values =~= Seq::empty());
                FieldValueSuggestion::Enumerated(suggestion)
            },
        }
    }
}

impl FieldTemplate {
    /// The draft that this field starts as.
    pub fn get_initial(&self) -> (r: FieldSuggestion)
        ensures
            r@ == initial_field(self@),
    {
        FieldSuggestion {
            name: self.name.clone(),
            label: self.label.clone(),
            value: self.value.get_initial(),
        }
    }
}

impl EventTemplate {
    /// The drafts that the fields of this template start as.
    pub fn get_initial_fields(&self) -> (r: Vec<FieldSuggestion>)
        ensures
            views(r@) == initial_fields(self@.fields),
    {
        let mut fields: Vec<FieldSuggestion> = Vec::new();
        let mut i: usize = 0;
        while i < self.fields.len()
            invariant
                i <= self.fields.len(),
                fields@.len() == i,
                forall|j: int| 0 <= j < i ==> fields@[j]@ == initial_field(self.fields@[j]@),
            decreases self.fields.len() - i,
        {
            fields.push(self.fields[i].get_initial());
            i = i + 1;
        }
        assert(views(fields@) =~= initial_fields(self@.fields));
        fields
    }

    /// The tags that an event of this template starts with.
    pub fn get_default_tags(&self) -> (r: Vec<String>)
        ensures
            views(r@) == self@.default_tags,
    {
        clone_texts(&self.default_tags)
    }

    /// The draft of an event of this template on the trace `trace`, under the
    /// identifier `uuid` and begun at `began_at`.
    pub fn create_builder_with(&self, trace: &TraceView, uuid: Uuid, began_at: Timestamp) -> (r:
        EventBuilder)
        ensures
            r@ == event_builder_of(self@, trace@, uuid, began_at),
    {
        EventBuilder {
            uuid,
            event_template: RenameMe_EventTemplate {
                event_template_uuid: self.event_template_uuid,
                name: self.name.clone(),
            },
            fields: self.get_initial_fields(),
            tags: self.get_default_tags(),
            traces: Vec::new(),
            began_at,
            selected_trace: TraceSelection::Selected(TraceItemView::from(trace)),
        }
    }

    /// The draft of an event of this template on the trace `trace`, under a
    /// fresh identifier and begun now.
    pub fn create_builder(&self, trace: &TraceView) -> (r: EventBuilder)
        ensures
            r@ == event_builder_of(self@, trace@, r.uuid, r.began_at),
            is_random_uuid(r.uuid),
            0 <= r.began_at,
    {
        let uuid = fresh_uuid();
        let began_at = now_utc();
        self.create_builder_with(trace, uuid, began_at)
    }

    /// The listing entry of this template, last used at `last_used`, or
    /// when it was created where no time of use is given.
    pub fn to_item(&self, last_used: Option<Timestamp>) -> (r: EventTemplateItemView)
        ensures
            r@ == event_template_item(self@, last_used),
    {
        EventTemplateItemView {
            event_template_uuid: self.event_template_uuid,
            name: self.name.clone(),
            created_at: self.created_at,
            last_used: match last_used {
                Some(at) => at,
                None => self.created_at,
            },
        }
    }
}

impl TraceTemplate {
    /// The listing entry of this template, last used at `last_used`, or
    /// when it was created where no time of use is given.
    pub fn to_item(&self, last_used: Option<Timestamp>) -> (r: TraceTemplateItemView)
        ensures
            r@ == trace_template_item(self@, last_used),
    {
        TraceTemplateItemView {
            trace_template_uuid: self.trace_template_uuid,
            name: self.name.clone(),
            created_at: self.created_at,
            last_used: Some(
                match last_used {
                    Some(at) => at,
                    None => self.created_at,
                },
            ),
        }
    }

    /// The draft of a trace of this template, under the identifier `uuid` and
    /// begun at `began_at`.
    pub fn create_builder_with(&self, uuid: Uuid, began_at: Timestamp) -> (r: TraceBuilder)
        ensures
            r@ == trace_builder_of(self@, uuid, began_at),
            r.distinct_origins(),
    {
        let builder = TraceBuilder {
            trace_uuid: uuid,
            name: String::new(),
            trace_template: RenameMe_TraceTemplate {
                trace_template_uuid: self.trace_template_uuid,
                name: self.name.clone(),
            },
            tags: Vec::new(),
            began_at,
            origin_traces: Vec::new(),
            selected_trace: TraceSelection::Unselected,
        };
        assert(builder@.tags =~= Seq::empty());
        assert(builder@.origin_traces =~= Set::empty());
        builder
    }

    /// The draft of a trace of this template, under a fresh identifier and
    /// begun now.
    pub fn create_builder(&self) -> (r: TraceBuilder)
        ensures
            r@ == trace_builder_of(self@, r.trace_uuid, r.began_at),
            r.distinct_origins(),
            is_random_uuid(r.trace_uuid),
            0 <= r.began_at,
    {
        let uuid = fresh_uuid();
        let began_at = now_utc();
        self.create_builder_with(uuid, began_at)
    }

    /// The event template at which a trace of this template stands.
    pub fn get_current_event_template(&self, last_event_template_uuid: Option<Uuid>) -> (r: Option<
        Uuid,
    >)
        ensures
            r == current_event_template(self@, last_event_template_uuid),
    {
        match last_event_template_uuid {
            Some(uuid) => Some(uuid),
            None => if self.flow.len() > 0 {
                Some(self.flow[0].from)
            } else {
                None
            },
        }
    }

    /// The event templates suggested for a trace of this template whose last
    /// event has the template `last_event_template_uuid`.
    pub fn get_suggested_event_templates(&self, last_event_template_uuid: Option<Uuid>) -> (r:
        HashSet<Uuid>)
        ensures
            r@ == suggested_event_templates(self@, last_event_template_uuid),
    {
        let mut suggested: HashSet<Uuid> = HashSet::new();
        let current = match self.get_current_event_template(last_event_template_uuid) {
            None => {
                return suggested;
            },
            Some(current) => current,
        };
        let ghost flow = self@.flow;
        let mut i: usize = 0;
        while i < self.flow.len()
            invariant
                i <= self.flow.len(),
                flow == views(self.flow@),
                forall|target: Uuid|
                    suggested@.contains(target) <==> exists|entry: int, place: int|
                        entry < i && #[trigger] leads_to(flow, current, target, entry, place),
            decreases self.flow.len() - i,
        {
            if self.flow[i].from == current {
                let entry = &self.flow[i];
                let mut j: usize = 0;
                while j < entry.to.len()
                    invariant
                        i < self.flow.len(),
                        flow == views(self.flow@),
                        *entry == self.flow@[i as int],
                        entry.from == current,
                        j <= entry.to.len(),
                        forall|target: Uuid|
                            suggested@.contains(target) <==> exists|e: int, place: int|
                                (e < i || (e == i && place < j)) && #[trigger] leads_to(
                                    flow,
                                    current,
                                    target,
                                    e,
                                    place,
                                ),
                    decreases entry.to.len() - j,
                {
                    let target = entry.to[j];
                    proof {
                        assert(leads_to(flow, current, target, i as int, j as int));
                    }
                    suggested.insert(target);
                    j = j + 1;
                }
            }
            i = i + 1;
        }
        assert(suggested@ =~= successors(flow, current));
        suggested
    }
}

} // verus!
