//! Drafts: the editable state between a template and a persisted record.
//!
//! A builder is made from a template, filled with the template's defaults,
//! changed freely by its holder, and turned into a record when it is saved.
//! It is never persisted itself.

use vstd::prelude::*;
use crate::clock::Timestamp;
use crate::definition::{event_builder_of, trace_builder_of};
use crate::errors::{EventTemplateNotFound, ParsingError, TraceTemplateNotFound};
use crate::ident::{is_random_uuid, Uuid};
use crate::import::{import_left, import_outcome};
use crate::json::Number;
use crate::model::{opt_view, views};
use crate::store::{
    event_templates_ascending, is_listing, trace_templates_ascending, StoreModel,
};
use crate::views::{
    EnumerationOption, EnumerationOptionModel, EventItemView, EventTemplateItemView, EventView,
    TraceItemModel, TraceItemView, TraceTemplateItemView, TraceView,
};

verus! {

/// What a draft holds for a field of a plain kind: the current value, the
/// values last used, and the template's default.
pub struct SuggestionModel<T> {
    pub value: Option<T>,
    pub last_values: Seq<T>,
    pub default_value: Option<T>,
}

/// The draft of a number field.
#[derive(Clone, Debug, PartialEq, Eq)]
pub struct NumberSuggestion {
    pub value: Option<Number>,
    pub last_values: Vec<Number>,
    pub default_value: Option<Number>,
}

impl View for NumberSuggestion {
    type V = SuggestionModel<Number>;

    open spec fn view(&self) -> SuggestionModel<Number> {
        SuggestionModel {
            value: self.value,
            last_values: self.last_values@,
            default_value: self.default_value,
        }
    }
}

/// The draft of a text field.
#[derive(Clone, Debug, PartialEq, Eq)]
pub struct TextSuggestion {
    pub value: Option<String>,
    pub last_values: Vec<String>,
    pub default_value: Option<String>,
}

impl View for TextSuggestion {
    type V = SuggestionModel<Seq<char>>;

    open spec fn view(&self) -> SuggestionModel<Seq<char>> {
        SuggestionModel {
            value: opt_view(self.value),
            last_values: views(self.last_values@),
            default_value: opt_view(self.default_value),
        }
    }
}

/// The draft of a boolean field.
#[derive(Clone, Debug, PartialEq, Eq)]
pub struct BoolSuggestion {
    pub value: Option<bool>,
    pub last_values: Vec<bool>,
    pub default_value: Option<bool>,
}

impl View for BoolSuggestion {
    type V = SuggestionModel<bool>;

    open spec fn view(&self) -> SuggestionModel<bool> {
        SuggestionModel {
            value: self.value,
            last_values: self.last_values@,
            default_value: self.default_value,
        }
    }
}

/// The draft of an enumerated field: the option selected, the options last
/// used, and the options to choose from.
#[derive(Clone, Debug, PartialEq, Eq)]
pub struct EnumeratedSuggestion {
    pub selected: Option<EnumerationOption>,
    pub last_values: Vec<EnumerationOption>,
    pub options: Vec<EnumerationOption>,
}

/// What an [`EnumeratedSuggestion`] holds, as mathematics.
pub struct EnumeratedSuggestionModel {
    pub selected: Option<EnumerationOptionModel>,
    pub last_values: Seq<EnumerationOptionModel>,
    pub options: Seq<EnumerationOptionModel>,
}

impl View for EnumeratedSuggestion {
    type V = EnumeratedSuggestionModel;

    open spec fn view(&self) -> EnumeratedSuggestionModel {
        EnumeratedSuggestionModel {
            selected: opt_view(self.selected),
            last_values: views(self.last_values@),
            options: views(self.options@),
        }
    }
}

/// The draft of a field's value: exactly one of the four kinds.
#[derive(Clone, Debug, PartialEq, Eq)]
pub enum FieldValueSuggestion {
    Number(NumberSuggestion),
    Text(TextSuggestion),
    Bool(BoolSuggestion),
    Enumerated(EnumeratedSuggestion),
}

/// What a [`FieldValueSuggestion`] holds, as mathematics.
pub enum FieldValueSuggestionModel {
    Number(SuggestionModel<Number>),
    Text(SuggestionModel<Seq<char>>),
    Bool(SuggestionModel<bool>),
    Enumerated(EnumeratedSuggestionModel),
}

impl View for FieldValueSuggestion {
    type V = FieldValueSuggestionModel;

    open spec fn view(&self) -> FieldValueSuggestionModel {
        match self {
            FieldValueSuggestion::Number(s) => FieldValueSuggestionModel::Number(s@),
            FieldValueSuggestion::Text(s) => FieldValueSuggestionModel::Text(s@),
            FieldValueSuggestion::Bool(s) => FieldValueSuggestionModel::Bool(s@),
            FieldValueSuggestion::Enumerated(s) => FieldValueSuggestionModel::Enumerated(s@),
        }
    }
}

/// The draft of a value after its value was cleared: it has none.
pub open spec fn cleared(suggestion: FieldValueSuggestionModel) -> FieldValueSuggestionModel {
    match suggestion {
        FieldValueSuggestionModel::Number(s) => FieldValueSuggestionModel::Number(
            SuggestionModel { value: None, ..s },
        ),
        FieldValueSuggestionModel::Text(s) => FieldValueSuggestionModel::Text(
            SuggestionModel { value: None, ..s },
        ),
        FieldValueSuggestionModel::Bool(s) => FieldValueSuggestionModel::Bool(
            SuggestionModel { value: None, ..s },
        ),
        FieldValueSuggestionModel::Enumerated(s) => FieldValueSuggestionModel::Enumerated(
            EnumeratedSuggestionModel { selected: None, ..s },
        ),
    }
}

/// The draft of a value after its value was set again: to its default, and
/// without a default to zero, to the empty text or to false. An enumerated
/// value stays as it is: it is set by choosing an option.
pub open spec fn restored(suggestion: FieldValueSuggestionModel) -> FieldValueSuggestionModel {
    match suggestion {
        FieldValueSuggestionModel::Number(s) => FieldValueSuggestionModel::Number(
            SuggestionModel {
                value: Some(
                    match s.default_value {
                        Some(default) => default,
                        None => Number { bits: 0 },
                    },
                ),
                ..s
            },
        ),
        FieldValueSuggestionModel::Text(s) => FieldValueSuggestionModel::Text(
            SuggestionModel {
                value: Some(
                    match s.default_value {
                        Some(default) => default,
                        None => Seq::empty(),
                    },
                ),
                ..s
            },
        ),
        FieldValueSuggestionModel::Bool(s) => FieldValueSuggestionModel::Bool(
            SuggestionModel {
                value: Some(
                    match s.default_value {
                        Some(default) => default,
                        None => false,
                    },
                ),
                ..s
            },
        ),
        FieldValueSuggestionModel::Enumerated(s) => FieldValueSuggestionModel::Enumerated(s),
    }
}

impl FieldValueSuggestion {
    /// Clears the value.
    pub fn clear(&mut self)
        ensures
            final(self)@ == cleared(old(self)@),
    {
        match self {
            FieldValueSuggestion::Number(s) => {
                s.value = None;
            },
            FieldValueSuggestion::Text(s) => {
                s.value = None;
            },
            FieldValueSuggestion::Bool(s) => {
                s.value = None;
            },
            FieldValueSuggestion::Enumerated(s) => {
                s.selected = None;
            },
        }
    }

    /// Sets the value again: to its default, or to the blank of its kind.
    pub fn restore(&mut self)
        ensures
            final(self)@ == restored(old(self)@),
    {
        match self {
            FieldValueSuggestion::Number(s) => {
                s.value = Some(
                    match s.default_value {
                        Some(default) => default,
                        None => Number { bits: 0 },
                    },
                );
            },
            FieldValueSuggestion::Text(s) => {
                s.value = Some(
                    match &s.default_value {
                        Some(default) => default.clone(),
                        None => String::new(),
                    },
                );
            },
            FieldValueSuggestion::Bool(s) => {
                s.value = Some(
                    match s.default_value {
                        Some(default) => default,
                        None => false,
                    },
                );
            },
            FieldValueSuggestion::Enumerated(_) => {},
        }
    }
}

impl EnumeratedSuggestion {
    /// Chooses the option at `index` of the options. Nothing changes where
    /// there is no such option.
    pub fn select(&mut self, index: usize)
        ensures
            final(self)@ == if index < old(self).options@.len() {
                EnumeratedSuggestionModel {
                    selected: Some(old(self)@.options[index as int]),
                    ..old(self)@
                }
            } else {
                old(self)@
            },
    {
        if index < self.options.len() {
            self.selected = Some(self.options[index].clone());
        }
    }
}

/// The draft of one field.
#[derive(Clone, Debug, PartialEq, Eq)]
pub struct FieldSuggestion {
    pub name: String,
    pub label: String,
    pub value: FieldValueSuggestion,
}

/// What a [`FieldSuggestion`] holds, as mathematics.
pub struct FieldSuggestionModel {
    pub name: Seq<char>,
    pub label: Seq<char>,
    pub value: FieldValueSuggestionModel,
}

impl View for FieldSuggestion {
    type V = FieldSuggestionModel;

    open spec fn view(&self) -> FieldSuggestionModel {
        FieldSuggestionModel { name: self.name@, label: self.label@, value: self.value@ }
    }
}

/// The trace that a draft is anchored to: none, or one.
#[derive(Debug, PartialEq, Eq, Hash)]
pub enum TraceSelection {
    Unselected,
    Selected(TraceItemView),
}

impl View for TraceSelection {
    type V = Option<TraceItemModel>;

    open spec fn view(&self) -> Option<TraceItemModel> {
        match self {
            TraceSelection::Unselected => None,
            TraceSelection::Selected(trace) => Some(trace@),
        }
    }
}

/// How a selection is labelled: by the trace's name, or `None`.
pub open spec fn selection_label(selection: Option<TraceItemModel>) -> Seq<char> {
    match selection {
        None => "None"@,
        Some(trace) => trace.name,
    }
}

impl TraceSelection {
    /// The label of the selection.
    pub fn label(&self) -> (r: String)
        ensures
            r@ == selection_label(self@),
    {
        match self {
            TraceSelection::Unselected => "None".to_owned(),
            TraceSelection::Selected(trace) => trace.name.clone(),
        }
    }
}

/// A template as a draft names it: by identifier and name.
pub struct TemplateRefModel {
    pub uuid: Uuid,
    pub name: Seq<char>,
}

/// The event template that a draft came from.
#[allow(non_camel_case_types)]
#[derive(Debug, PartialEq, Eq)]
pub struct RenameMe_EventTemplate {
    pub event_template_uuid: Uuid,
    pub name: String,
}

impl View for RenameMe_EventTemplate {
    type V = TemplateRefModel;

    open spec fn view(&self) -> TemplateRefModel {
        TemplateRefModel { uuid: self.event_template_uuid, name: self.name@ }
    }
}

/// The draft of an event.
#[derive(Debug, PartialEq, Eq)]
pub struct EventBuilder {
    pub uuid: Uuid,
    pub event_template: RenameMe_EventTemplate,
    pub fields: Vec<FieldSuggestion>,
    pub tags: Vec<String>,
    pub traces: Vec<Uuid>,
    pub began_at: Timestamp,
    pub selected_trace: TraceSelection,
}

/// What an [`EventBuilder`] holds, as mathematics.
pub struct EventBuilderModel {
    pub uuid: Uuid,
    pub event_template: TemplateRefModel,
    pub fields: Seq<FieldSuggestionModel>,
    pub tags: Seq<Seq<char>>,
    pub traces: Seq<Uuid>,
    pub began_at: Timestamp,
    pub selected_trace: Option<TraceItemModel>,
}

impl View for EventBuilder {
    type V = EventBuilderModel;

    open spec fn view(&self) -> EventBuilderModel {
        EventBuilderModel {
            uuid: self.uuid,
            event_template: self.event_template@,
            fields: views(self.fields@),
            tags: views(self.tags@),
            traces: self.traces@,
            began_at: self.began_at,
            selected_trace: self.selected_trace@,
        }
    }
}

impl EventBuilder {
    /// Whether the draft is anchored to a trace. Only such a draft can
    /// become an event: every function that makes or saves an event demands
    /// it, and none makes up a trace for a draft that has none.
    pub open spec fn anchored(&self) -> bool {
        self.selected_trace is Selected
    }

    /// Whether the draft is anchored to a trace.
    pub fn is_anchored(&self) -> (r: bool)
        ensures
            r == self.anchored(),
    {
        match &self.selected_trace {
            TraceSelection::Selected(_) => true,
            TraceSelection::Unselected => false,
        }
    }
}

/// The trace template that a draft came from.
#[allow(non_camel_case_types)]
#[derive(Debug, PartialEq, Eq)]
pub struct RenameMe_TraceTemplate {
    pub trace_template_uuid: Uuid,
    pub name: String,
}

impl View for RenameMe_TraceTemplate {
    type V = TemplateRefModel;

    open spec fn view(&self) -> TemplateRefModel {
        TemplateRefModel { uuid: self.trace_template_uuid, name: self.name@ }
    }
}

/// The draft of a trace.
///
/// `origin_traces` is a set: [`TraceBuilder::distinct_origins`] says that no
/// trace stands in it twice. `selected_trace` is the slot in which a trace
/// waits before it joins the set.
#[derive(Debug, PartialEq, Eq)]
pub struct TraceBuilder {
    pub trace_uuid: Uuid,
    pub name: String,
    pub trace_template: RenameMe_TraceTemplate,
    pub tags: Vec<String>,
    pub began_at: Timestamp,
    pub origin_traces: Vec<TraceItemView>,
    pub selected_trace: TraceSelection,
}

/// What a [`TraceBuilder`] holds, as mathematics: the origins as a set.
pub struct TraceBuilderModel {
    pub trace_uuid: Uuid,
    pub name: Seq<char>,
    pub trace_template: TemplateRefModel,
    pub tags: Seq<Seq<char>>,
    pub began_at: Timestamp,
    pub origin_traces: Set<TraceItemModel>,
    pub selected_trace: Option<TraceItemModel>,
}

impl View for TraceBuilder {
    type V = TraceBuilderModel;

    open spec fn view(&self) -> TraceBuilderModel {
        TraceBuilderModel {
            trace_uuid: self.trace_uuid,
            name: self.name@,
            trace_template: self.trace_template@,
            tags: views(self.tags@),
            began_at: self.began_at,
            origin_traces: views(self.origin_traces@).to_set(),
            selected_trace: self.selected_trace@,
        }
    }
}

impl TraceBuilder {
    /// No trace stands twice among the origins.
    pub open spec fn distinct_origins(&self) -> bool {
        views(self.origin_traces@).no_duplicates()
    }

    /// The label of the draft: its name.
    pub fn label(&self) -> (r: String)
        ensures
            r@ == self.name@,
    {
        self.name.clone()
    }

    /// Moves the trace that waits in the slot to the origins, and empties
    /// the slot. A trace that is among the origins already does not join
    /// them twice.
    pub fn add_selected_origin(&mut self)
        requires
            old(self).distinct_origins(),
        ensures
            final(self).distinct_origins(),
            final(self)@ == (TraceBuilderModel {
                origin_traces: match old(self)@.selected_trace {
                    Some(trace) => old(self)@.origin_traces.insert(trace),
                    None => old(self)@.origin_traces,
                },
                selected_trace: None,
                ..old(self)@
            }),
    {
        let mut selection = TraceSelection::Unselected;
        std::mem::swap(&mut self.selected_trace, &mut selection);
        match selection {
            TraceSelection::Unselected => {},
            TraceSelection::Selected(trace) => {
                let ghost before = views(self.origin_traces@);
                let mut known = false;
                let mut i: usize = 0;
                while i < self.origin_traces.len()
                    invariant
                        i <= self.origin_traces.len(),
                        before == views(self.origin_traces@),
                        known <==> exists|j: int| 0 <= j < i && #[trigger] before[j] == trace@,
                    decreases self.origin_traces.len() - i,
                {
                    let same = self.origin_traces[i].same_as(&trace);
                    proof {
                        assert(same == (before[i as int] == trace@));
                        if !known && !same {
                            assert forall|j: int| 0 <= j < i + 1 implies #[trigger] before[j]
                                != trace@ by {}
                        }
                    }
                    if same {
                        known = true;
                    }
                    i = i + 1;
                }
                if known {
                    assert(before.contains(trace@));
                    assert(before.to_set().insert(trace@) =~= before.to_set());
                } else {
                    self.origin_traces.push(trace);
                    let ghost after = views(self.origin_traces@);
                    assert(after =~= before.push(trace@));
                    assert(after.to_set() =~= before.to_set().insert(trace@)) by {
                        assert forall|item: TraceItemModel|
                            after.contains(item) <==> before.contains(item) || item
                                == trace@ by {
                            if before.contains(item) {
                                let at = choose|at: int| 0 <= at < before.len() && before[at] == item;
                                assert(after[at] == item);
                            }
                            if item == trace@ {
                                assert(after[before.len() as int] == item);
                            }
                        }
                    }
                }
            },
        }
    }
}

/// The operations of the repository, whatever keeps the records.
///
/// Every listing takes a scope: a project, or none for all projects. A
/// listing shows each record of the scope once; in which order, only the
/// listings of templates say.
pub trait EventsService {
    /// What the repository holds.
    spec fn store(&self) -> StoreModel;

    /// The event templates of the scope, from the least recently used to the
    /// most recently used.
    fn list_event_templates(&self, project_uuid: Option<Uuid>) -> (r: Vec<EventTemplateItemView>)
        ensures
            is_listing(
                views(r@),
                self.store().listed_event_templates(project_uuid),
                self.store().event_template_listings(),
            ),
            event_templates_ascending(views(r@)),
    ;

    /// The draft of an event of the template `template_uuid` on the trace
    /// `trace`, under a fresh identifier and begun now. There is no draft of
    /// a template that the repository does not hold.
    fn create_event(&self, trace: &TraceView, template_uuid: Uuid) -> (r: Result<
        EventBuilder,
        EventTemplateNotFound,
    >)
        ensures
            r is Ok <==> self.store().event_templates.contains_key(template_uuid),
            r matches Ok(builder) ==> builder@ == event_builder_of(
                self.store().event_templates[template_uuid],
                trace@,
                builder.uuid,
                builder.began_at,
            ) && is_random_uuid(builder.uuid) && 0 <= builder.began_at,
            r matches Err(error) ==> error.event_template_uuid == template_uuid,
    ;

    /// The draft of a trace of the template `trace_template_uuid`, under a
    /// fresh identifier and begun now. There is no draft of a template that
    /// the repository does not hold.
    fn create_trace(&self, trace_template_uuid: Uuid) -> (r: Result<
        TraceBuilder,
        TraceTemplateNotFound,
    >)
        ensures
            r is Ok <==> self.store().trace_templates.contains_key(trace_template_uuid),
            r matches Ok(builder) ==> builder@ == trace_builder_of(
                self.store().trace_templates[trace_template_uuid],
                builder.trace_uuid,
                builder.began_at,
            ) && builder.distinct_origins() && is_random_uuid(builder.trace_uuid) && 0
                <= builder.began_at,
            r matches Err(error) ==> error.trace_template_uuid == trace_template_uuid,
    ;

    /// Completes the trace now. Nothing changes where the repository does
    /// not hold the trace.
    fn complete_trace(&mut self, trace_uuid: Uuid)
        ensures
            exists|at: Timestamp|
                0 <= at && final(self).store() == #[trigger] old(self).store().completed(
                    trace_uuid,
                    at,
                ),
    ;

    /// Saves the draft as an event under a fresh identifier, created now.
    /// The draft must be anchored to a trace.
    fn save_event(&mut self, event_builder: &EventBuilder)
        requires
            event_builder.anchored(),
        ensures
            exists|uuid: Uuid, at: Timestamp|
                is_random_uuid(uuid) && 0 <= at && final(self).store() == #[trigger] old(
                    self,
                ).store().with_saved_event(event_builder@, uuid, at),
    ;

    /// Saves the draft as a trace under a fresh identifier, created now.
    fn save_trace(&mut self, trace_builder: &TraceBuilder)
        ensures
            exists|uuid: Uuid, at: Timestamp|
                is_random_uuid(uuid) && 0 <= at && final(self).store() == #[trigger] old(
                    self,
                ).store().with_saved_trace(trace_builder@, uuid, at),
    ;

    /// The event stored under `event_uuid` in full, if there is one.
    fn view_event(&self, event_uuid: Uuid) -> (r: Option<EventView>)
        ensures
            opt_view(r) == self.store().viewed_event(event_uuid),
    ;

    /// The trace stored under `trace_uuid` in full, if there is one.
    fn view_trace(&self, trace_uuid: Uuid) -> (r: Option<TraceView>)
        ensures
            r is Some <==> self.store().traces.contains_key(trace_uuid),
            r matches Some(view) ==> self.store().shows_trace(
                self.store().traces[trace_uuid],
                view@,
            ),
    ;

    /// The events of the scope.
    fn list_events(&self, project_uuid: Option<Uuid>) -> (r: Vec<EventItemView>)
        ensures
            is_listing(
                views(r@),
                self.store().listed_events(project_uuid),
                self.store().event_listings(),
            ),
    ;

    /// The traces of the scope that are not completed.
    fn list_traces(&self, project_uuid: Option<Uuid>) -> (r: Vec<TraceItemView>)
        ensures
            is_listing(
                views(r@),
                self.store().listed_traces(project_uuid),
                self.store().trace_listings(),
            ),
    ;

    /// The trace templates of the scope, from the least recently used to the
    /// most recently used.
    fn list_trace_templates(&self, project_uuid: Option<Uuid>) -> (r: Vec<TraceTemplateItemView>)
        ensures
            is_listing(
                views(r@),
                self.store().listed_trace_templates(project_uuid),
                self.store().trace_template_listings(),
            ),
            trace_templates_ascending(views(r@)),
    ;

    /// Imports the definition that the text `definition` holds as JSON, for a
    /// project of the name `project_name`, now. Where the text is malformed
    /// the repository stays as it was.
    fn import_definition(&mut self, project_name: String, definition: &str) -> (r: Result<
        (),
        ParsingError,
    >)
        ensures
            r is Err ==> final(self).store() == old(self).store(),
            exists|now: Timestamp|
                0 <= now && import_left(r, final(self).store()) == #[trigger] import_outcome(
                    old(self).store(),
                    project_name@,
                    definition@,
                    now,
                ),
    ;
}

} // verus!
