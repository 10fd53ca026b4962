//! Read-only, denormalised projections of the persisted records.
//!
//! A view resolves the identifiers that a record holds into summaries of what
//! they name. Where an identifier no longer resolves, the summary is absent.

use vstd::prelude::*;
use vstd::std_specs::convert::FromSpecImpl;
use crate::clock::Timestamp;
use crate::ident::Uuid;
use crate::json::Number;
use crate::model::{clone_opt_text, opt_view, views};

verus! {

/// One choice of an enumerated field.
#[derive(Debug, PartialEq, Eq)]
pub struct EnumerationOption {
    pub name: String,
    pub label: String,
}

/// What an [`EnumerationOption`] holds, as mathematics.
pub struct EnumerationOptionModel {
    pub name: Seq<char>,
    pub label: Seq<char>,
}

impl View for EnumerationOption {
    type V = EnumerationOptionModel;

    open spec fn view(&self) -> EnumerationOptionModel {
        EnumerationOptionModel { name: self.name@, label: self.label@ }
    }
}

impl Clone for EnumerationOption {
    fn clone(&self) -> (r: Self)
        ensures
            r@ == self@,
    {
        EnumerationOption { name: self.name.clone(), label: self.label.clone() }
    }
}

/// Whether two texts that may be absent are the same.
pub fn same_opt_text(a: &Option<String>, b: &Option<String>) -> (r: bool)
    ensures
        r == (opt_view(*a) == opt_view(*b)),
{
    match (a, b) {
        (Some(x), Some(y)) => *x == *y,
        (None, None) => true,
        _ => false,
    }
}

/// A copy of a list of options.
pub fn clone_options(list: &Vec<EnumerationOption>) -> (r: Vec<EnumerationOption>)
    ensures
        views(r@) == views(list@),
{
    let mut out: Vec<EnumerationOption> = Vec::new();
    let mut i: usize = 0;
    while i < list.len()
        invariant
            i <= list.len(),
            out@.len() == i,
            forall|j: int| 0 <= j < i ==> out@[j]@ == list@[j]@,
        decreases list.len() - i,
    {
        out.push(list[i].clone());
        i = i + 1;
    }
    assert(views(out@) =~= views(list@));
    out
}

/// The moment at which a trace was completed.
#[derive(Clone, Copy, Debug, PartialEq, Eq, Structural)]
pub struct TraceCompletion {
    pub completed_at: Timestamp,
}

impl View for TraceCompletion {
    type V = Timestamp;

    open spec fn view(&self) -> Timestamp {
        self.completed_at
    }
}

/// A number as shown.
#[derive(Clone, Copy, Debug, PartialEq, Eq, Structural)]
pub struct NumberValueView {
    pub value: Option<Number>,
}

impl View for NumberValueView {
    type V = Option<Number>;

    open spec fn view(&self) -> Option<Number> {
        self.value
    }
}

/// A text as shown.
#[derive(Clone, Debug, PartialEq, Eq)]
pub struct TextValueView {
    pub value: Option<String>,
}

impl View for TextValueView {
    type V = Option<Seq<char>>;

    open spec fn view(&self) -> Option<Seq<char>> {
        opt_view(self.value)
    }
}

/// A truth value as shown.
#[derive(Clone, Copy, Debug, PartialEq, Eq, Structural)]
pub struct BoolValueView {
    pub value: Option<bool>,
}

impl View for BoolValueView {
    type V = Option<bool>;

    open spec fn view(&self) -> Option<bool> {
        self.value
    }
}

/// The chosen option of an enumerated field as shown: its label.
#[derive(Clone, Debug, PartialEq, Eq)]
pub struct EnumerationOptionView {
    pub label: String,
}

impl View for EnumerationOptionView {
    type V = Seq<char>;

    open spec fn view(&self) -> Seq<char> {
        self.label@
    }
}

/// The value of a field as shown.
#[derive(Clone, Debug, PartialEq, Eq)]
pub enum FieldValueView {
    Number(NumberValueView),
    Text(TextValueView),
    Bool(BoolValueView),
    Enumerated(EnumerationOptionView),
}

/// What a [`FieldValueView`] holds, as mathematics.
pub enum FieldValueViewModel {
    Number(Option<Number>),
    Text(Option<Seq<char>>),
    Bool(Option<bool>),
    Enumerated(Seq<char>),
}

impl View for FieldValueView {
    type V = FieldValueViewModel;

    open spec fn view(&self) -> FieldValueViewModel {
        match self {
            FieldValueView::Number(v) => FieldValueViewModel::Number(v@),
            FieldValueView::Text(v) => FieldValueViewModel::Text(v@),
            FieldValueView::Bool(v) => FieldValueViewModel::Bool(v@),
            FieldValueView::Enumerated(v) => FieldValueViewModel::Enumerated(v@),
        }
    }
}

/// A field of an event as shown.
#[derive(Clone, Debug, PartialEq, Eq)]
pub struct FieldView {
    pub name: String,
    pub label: String,
    pub value: Option<FieldValueView>,
}

/// What a [`FieldView`] holds, as mathematics.
pub struct FieldViewModel {
    pub name: Seq<char>,
    pub label: Seq<char>,
    pub value: Option<FieldValueViewModel>,
}

impl View for FieldView {
    type V = FieldViewModel;

    open spec fn view(&self) -> FieldViewModel {
        FieldViewModel { name: self.name@, label: self.label@, value: opt_view(self.value) }
    }
}

/// A project in a listing.
#[derive(Clone, Copy, Debug, PartialEq, Eq, Structural)]
pub struct ProjectItemView {}

/// A project in full.
#[derive(Clone, Copy, Debug, PartialEq, Eq, Structural)]
pub struct ProjectView {}

/// An event template in a listing.
#[derive(Debug, PartialEq, Eq)]
pub struct EventTemplateItemView {
    pub event_template_uuid: Uuid,
    pub name: String,
    pub created_at: Timestamp,
    pub last_used: Timestamp,
}

/// What an [`EventTemplateItemView`] holds, as mathematics.
pub struct EventTemplateItemModel {
    pub event_template_uuid: Uuid,
    pub name: Seq<char>,
    pub created_at: Timestamp,
    pub last_used: Timestamp,
}

impl View for EventTemplateItemView {
    type V = EventTemplateItemModel;

    open spec fn view(&self) -> EventTemplateItemModel {
        EventTemplateItemModel {
            event_template_uuid: self.event_template_uuid,
            name: self.name@,
            created_at: self.created_at,
            last_used: self.last_used,
        }
    }
}

impl Clone for EventTemplateItemView {
    fn clone(&self) -> (r: Self)
        ensures
            r@ == self@,
    {
        EventTemplateItemView {
            event_template_uuid: self.event_template_uuid,
            name: self.name.clone(),
            created_at: self.created_at,
            last_used: self.last_used,
        }
    }
}

/// An event template in full.
#[derive(Clone, Copy, Debug, PartialEq, Eq, Structural)]
pub struct EventTemplateView {}

/// A trace template in a listing. An entry that the library makes always
/// says when the template was last used: a template that was never used
/// counts as used when it was created.
#[derive(Debug, PartialEq, Eq)]
pub struct TraceTemplateItemView {
    pub trace_template_uuid: Uuid,
    pub name: String,
    pub created_at: Timestamp,
    pub last_used: Option<Timestamp>,
}

/// What a [`TraceTemplateItemView`] holds, as mathematics.
pub struct TraceTemplateItemModel {
    pub trace_template_uuid: Uuid,
    pub name: Seq<char>,
    pub created_at: Timestamp,
    pub last_used: Option<Timestamp>,
}

impl View for TraceTemplateItemView {
    type V = TraceTemplateItemModel;

    open spec fn view(&self) -> TraceTemplateItemModel {
        TraceTemplateItemModel {
            trace_template_uuid: self.trace_template_uuid,
            name: self.name@,
            created_at: self.created_at,
            last_used: self.last_used,
        }
    }
}

impl Clone for TraceTemplateItemView {
    fn clone(&self) -> (r: Self)
        ensures
            r@ == self@,
    {
        TraceTemplateItemView {
            trace_template_uuid: self.trace_template_uuid,
            name: self.name.clone(),
            created_at: self.created_at,
            last_used: self.last_used,
        }
    }
}

/// A trace template in full.
#[derive(Clone, Debug, PartialEq, Eq)]
pub struct TraceTemplateView {
    pub trace_template_uuid: Uuid,
    pub name: String,
}

/// What a [`TraceTemplateView`] holds, as mathematics.
pub struct TraceTemplateViewModel {
    pub trace_template_uuid: Uuid,
    pub name: Seq<char>,
}

impl View for TraceTemplateView {
    type V = TraceTemplateViewModel;

    open spec fn view(&self) -> TraceTemplateViewModel {
        TraceTemplateViewModel { trace_template_uuid: self.trace_template_uuid, name: self.name@ }
    }
}

/// A trace in a listing.
#[derive(Debug, PartialEq, Eq, Hash)]
pub struct TraceItemView {
    pub trace_uuid: Uuid,
    pub name: String,
    pub template_name: Option<String>,
}

/// What a [`TraceItemView`] holds, as mathematics.
pub struct TraceItemModel {
    pub trace_uuid: Uuid,
    pub name: Seq<char>,
    pub template_name: Option<Seq<char>>,
}

impl View for TraceItemView {
    type V = TraceItemModel;

    open spec fn view(&self) -> TraceItemModel {
        TraceItemModel {
            trace_uuid: self.trace_uuid,
            name: self.name@,
            template_name: opt_view(self.template_name),
        }
    }
}

impl TraceItemView {
    /// Whether two entries are the same: identifier, name and template name.
    pub fn same_as(&self, other: &TraceItemView) -> (r: bool)
        ensures
            r == (self@ == other@),
    {
        self.trace_uuid == other.trace_uuid && self.name == other.name && same_opt_text(
            &self.template_name,
            &other.template_name,
        )
    }
}

impl Clone for TraceItemView {
    fn clone(&self) -> (r: Self)
        ensures
            r@ == self@,
    {
        TraceItemView {
            trace_uuid: self.trace_uuid,
            name: self.name.clone(),
            template_name: clone_opt_text(&self.template_name),
        }
    }
}

/// An event in a listing.
#[derive(Clone, Debug, PartialEq, Eq)]
pub struct EventItemView {
    pub event_uuid: Uuid,
    pub event_template: Option<EventTemplateItemView>,
    pub created_at: Timestamp,
    pub trace_name: Option<String>,
}

/// What an [`EventItemView`] holds, as mathematics.
pub struct EventItemModel {
    pub event_uuid: Uuid,
    pub event_template: Option<EventTemplateItemModel>,
    pub created_at: Timestamp,
    pub trace_name: Option<Seq<char>>,
}

impl View for EventItemView {
    type V = EventItemModel;

    open spec fn view(&self) -> EventItemModel {
        EventItemModel {
            event_uuid: self.event_uuid,
            event_template: opt_view(self.event_template),
            created_at: self.created_at,
            trace_name: opt_view(self.trace_name),
        }
    }
}

/// A trace in full: the trace, its template, its most recent event, and the
/// event templates that may follow.
#[derive(Clone, Debug, PartialEq, Eq)]
pub struct TraceView {
    pub trace_uuid: Uuid,
    pub name: String,
    pub trace_template: Option<TraceTemplateItemView>,
    pub tags: Vec<String>,
    pub completion: Option<TraceCompletion>,
    pub last_event: Option<EventItemView>,
    pub suggested_event_templates: Vec<EventTemplateItemView>,
    pub other_event_templates: Vec<EventTemplateItemView>,
}

/// What a [`TraceView`] holds, as mathematics.
pub struct TraceViewModel {
    pub trace_uuid: Uuid,
    pub name: Seq<char>,
    pub trace_template: Option<TraceTemplateItemModel>,
    pub tags: Seq<Seq<char>>,
    pub completion: Option<Timestamp>,
    pub last_event: Option<EventItemModel>,
    pub suggested_event_templates: Seq<EventTemplateItemModel>,
    pub other_event_templates: Seq<EventTemplateItemModel>,
}

impl View for TraceView {
    type V = TraceViewModel;

    open spec fn view(&self) -> TraceViewModel {
        TraceViewModel {
            trace_uuid: self.trace_uuid,
            name: self.name@,
            trace_template: opt_view(self.trace_template),
            tags: views(self.tags@),
            completion: opt_view(self.completion),
            last_event: opt_view(self.last_event),
            suggested_event_templates: views(self.suggested_event_templates@),
            other_event_templates: views(self.other_event_templates@),
        }
    }
}

/// The listing entry of a trace shown in full.
pub open spec fn trace_item_of(trace: TraceViewModel) -> TraceItemModel {
    TraceItemModel {
        trace_uuid: trace.trace_uuid,
        name: trace.name,
        template_name: match trace.trace_template {
            Some(template) => Some(template.name),
            None => None,
        },
    }
}

impl<'a> FromSpecImpl<&'a TraceView> for TraceItemView {
    open spec fn obeys_from_spec() -> bool {
        true
    }

    open spec fn from_spec(v: &'a TraceView) -> TraceItemView {
        TraceItemView {
            trace_uuid: v.trace_uuid,
            name: v.name,
            template_name: match v.trace_template {
                Some(template) => Some(template.name),
                None => None,
            },
        }
    }
}

impl<'a> From<&'a TraceView> for TraceItemView {
    /// The listing entry of a trace shown in full.
    fn from(trace: &'a TraceView) -> (r: TraceItemView)
        ensures
            r@ == trace_item_of(trace@),
    {
        TraceItemView {
            trace_uuid: trace.trace_uuid,
            name: trace.name.clone(),
            template_name: match &trace.trace_template {
                Some(template) => Some(template.name.clone()),
                None => None,
            },
        }
    }
}

/// An event in full.
#[derive(Clone, Debug, PartialEq, Eq)]
pub struct EventView {
    pub event_uuid: Uuid,
    pub event_template: Option<EventTemplateItemView>,
    pub trace: Option<TraceItemView>,
    pub fields: Vec<FieldView>,
    pub tags: Vec<String>,
    pub began_at: Timestamp,
    pub created_at: Timestamp,
}

/// What an [`EventView`] holds, as mathematics.
pub struct EventViewModel {
    pub event_uuid: Uuid,
    pub event_template: Option<EventTemplateItemModel>,
    pub trace: Option<TraceItemModel>,
    pub fields: Seq<FieldViewModel>,
    pub tags: Seq<Seq<char>>,
    pub began_at: Timestamp,
    pub created_at: Timestamp,
}

impl View for EventView {
    type V = EventViewModel;

    open spec fn view(&self) -> EventViewModel {
        EventViewModel {
            event_uuid: self.event_uuid,
            event_template: opt_view(self.event_template),
            trace: opt_view(self.trace),
            fields: views(self.fields@),
            tags: views(self.tags@),
            began_at: self.began_at,
            created_at: self.created_at,
        }
    }
}

} // verus!
