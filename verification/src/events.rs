//! Persisted records: traces and the events recorded against them.

use vstd::prelude::*;
use crate::clock::Timestamp;
use crate::ident::Uuid;
use crate::json::Number;
use crate::model::{clone_texts, opt_view, views};
use crate::views::{
    BoolValueView, EnumerationOption, EnumerationOptionModel, EnumerationOptionView,
    FieldValueView, FieldValueViewModel, FieldView, FieldViewModel, NumberValueView,
    TextValueView, TraceCompletion, TraceItemModel, TraceItemView,
};

verus! {

/// What a named value holds, as mathematics.
pub struct NamedValueModel<T> {
    pub name: Seq<char>,
    pub value: Option<T>,
}

/// A named number.
#[derive(Clone, Debug, PartialEq, Eq)]
pub struct NumberField {
    pub name: String,
    pub value: Option<Number>,
}

impl View for NumberField {
    type V = NamedValueModel<Number>;

    open spec fn view(&self) -> NamedValueModel<Number> {
        NamedValueModel { name: self.name@, value: self.value }
    }
}

/// A named text.
#[derive(Clone, Debug, PartialEq, Eq)]
pub struct TextField {
    pub name: String,
    pub value: Option<String>,
}

impl View for TextField {
    type V = NamedValueModel<Seq<char>>;

    open spec fn view(&self) -> NamedValueModel<Seq<char>> {
        NamedValueModel { name: self.name@, value: opt_view(self.value) }
    }
}

/// A named truth value.
#[derive(Clone, Debug, PartialEq, Eq)]
pub struct BoolField {
    pub name: String,
    pub value: Option<bool>,
}

impl View for BoolField {
    type V = NamedValueModel<bool>;

    open spec fn view(&self) -> NamedValueModel<bool> {
        NamedValueModel { name: self.name@, value: self.value }
    }
}

/// A named choice.
#[derive(Clone, Debug, PartialEq, Eq)]
pub struct EnumeratedField {
    pub name: String,
    pub value: Option<EnumerationOption>,
}

impl View for EnumeratedField {
    type V = NamedValueModel<EnumerationOptionModel>;

    open spec fn view(&self) -> NamedValueModel<EnumerationOptionModel> {
        NamedValueModel { name: self.name@, value: opt_view(self.value) }
    }
}

/// The value that one field of an event holds.
#[derive(Debug, PartialEq, Eq)]
pub enum FieldValue {
    Number(Number),
    Text(String),
    Bool(bool),
    Enumerated(EnumerationOption),
}

/// What a [`FieldValue`] holds, as mathematics.
pub enum FieldValueModel {
    Number(Number),
    Text(Seq<char>),
    Bool(bool),
    Enumerated(EnumerationOptionModel),
}

impl View for FieldValue {
    type V = FieldValueModel;

    open spec fn view(&self) -> FieldValueModel {
        match self {
            FieldValue::Number(n) => FieldValueModel::Number(*n),
            FieldValue::Text(s) => FieldValueModel::Text(s@),
            FieldValue::Bool(b) => FieldValueModel::Bool(*b),
            FieldValue::Enumerated(e) => FieldValueModel::Enumerated(e@),
        }
    }
}

impl Clone for FieldValue {
    fn clone(&self) -> (r: Self)
        ensures
            r@ == self@,
    {
        match self {
            FieldValue::Number(n) => FieldValue::Number(*n),
            FieldValue::Text(s) => FieldValue::Text(s.clone()),
            FieldValue::Bool(b) => FieldValue::Bool(*b),
            FieldValue::Enumerated(e) => FieldValue::Enumerated(e.clone()),
        }
    }
}

/// One field of an event: a name, a label and the value it resolved to.
#[derive(Debug, PartialEq, Eq)]
pub struct Field {
    pub name: String,
    pub label: String,
    pub value: Option<FieldValue>,
}

/// What a [`Field`] holds, as mathematics.
pub struct FieldModel {
    pub name: Seq<char>,
    pub label: Seq<char>,
    pub value: Option<FieldValueModel>,
}

impl View for Field {
    type V = FieldModel;

    open spec fn view(&self) -> FieldModel {
        FieldModel { name: self.name@, label: self.label@, value: opt_view(self.value) }
    }
}

impl Clone for Field {
    fn clone(&self) -> (r: Self)
        ensures
            r@ == self@,
    {
        Field {
            name: self.name.clone(),
            label: self.label.clone(),
            value: match &self.value {
                Some(value) => Some(value.clone()),
                None => None,
            },
        }
    }
}

/// How a value is shown.
pub open spec fn shown_value(value: FieldValueModel) -> FieldValueViewModel {
    match value {
        FieldValueModel::Number(n) => FieldValueViewModel::Number(Some(n)),
        FieldValueModel::Text(s) => FieldValueViewModel::Text(Some(s)),
        FieldValueModel::Bool(b) => FieldValueViewModel::Bool(Some(b)),
        FieldValueModel::Enumerated(e) => FieldValueViewModel::Enumerated(e.label),
    }
}

/// How a field is shown: name and label as they are, the value by
/// [`shown_value`], an enumerated one by the label of its option.
pub open spec fn shown_field(field: FieldModel) -> FieldViewModel {
    FieldViewModel {
        name: field.name,
        label: field.label,
        value: match field.value {
            Some(value) => Some(shown_value(value)),
            None => None,
        },
    }
}

impl Field {
    /// The field as shown.
    pub fn to_view(&self) -> (r: FieldView)
        ensures
            r@ == shown_field(self@),
    {
        FieldView {
            name: self.name.clone(),
            label: self.label.clone(),
            value: match &self.value {
                Some(FieldValue::Number(n)) => Some(
                    FieldValueView::Number(NumberValueView { value: Some(*n) }),
                ),
                Some(FieldValue::Text(s)) => Some(
                    FieldValueView::Text(TextValueView { value: Some(s.clone()) }),
                ),
                Some(FieldValue::Bool(b)) => Some(
                    FieldValueView::Bool(BoolValueView { value: Some(*b) }),
                ),
                Some(FieldValue::Enumerated(e)) => Some(
                    FieldValueView::Enumerated(EnumerationOptionView { label: e.label.clone() }),
                ),
                None => None,
            },
        }
    }
}

/// A trace: one run of a workflow. After its creation only its completion
/// changes.
#[derive(Debug, PartialEq, Eq)]
pub struct Trace {
    pub trace_uuid: Uuid,
    pub trace_template_uuid: Uuid,
    pub origin_trace_uuids: Vec<Uuid>,
    pub created_at: Timestamp,
    pub name: String,
    pub completion: Option<TraceCompletion>,
}

/// What a [`Trace`] holds, as mathematics.
pub struct TraceModel {
    pub trace_uuid: Uuid,
    pub trace_template_uuid: Uuid,
    pub origin_trace_uuids: Seq<Uuid>,
    pub created_at: Timestamp,
    pub name: Seq<char>,
    pub completion: Option<Timestamp>,
}

impl View for Trace {
    type V = TraceModel;

    open spec fn view(&self) -> TraceModel {
        TraceModel {
            trace_uuid: self.trace_uuid,
            trace_template_uuid: self.trace_template_uuid,
            origin_trace_uuids: self.origin_trace_uuids@,
            created_at: self.created_at,
            name: self.name@,
            completion: opt_view(self.completion),
        }
    }
}

impl Clone for Trace {
    fn clone(&self) -> (r: Self)
        ensures
            r@ == self@,
    {
        Trace {
            trace_uuid: self.trace_uuid,
            trace_template_uuid: self.trace_template_uuid,
            origin_trace_uuids: self.origin_trace_uuids.clone(),
            created_at: self.created_at,
            name: self.name.clone(),
            completion: self.completion,
        }
    }
}

/// The listing entry of a trace whose template has the name given.
pub open spec fn trace_item(trace: TraceModel, template_name: Option<Seq<char>>) -> TraceItemModel {
    TraceItemModel { trace_uuid: trace.trace_uuid, name: trace.name, template_name }
}

impl Trace {
    /// The listing entry of this trace.
    pub fn to_item(&self, template_name: Option<String>) -> (r: TraceItemView)
        ensures
            r@ == trace_item(self@, opt_view(template_name)),
    {
        TraceItemView { trace_uuid: self.trace_uuid, name: self.name.clone(), template_name }
    }
}

/// An event: what was recorded at one step of a trace. It does not change
/// after its creation.
#[derive(Debug, PartialEq, Eq)]
pub struct Event {
    pub event_uuid: Uuid,
    pub event_template_uuid: Uuid,
    pub trace_uuid: Uuid,
    pub fields: Vec<Field>,
    pub tags: Vec<String>,
    pub began_at: Timestamp,
    pub created_at: Timestamp,
}

/// What an [`Event`] holds, as mathematics.
pub struct EventModel {
    pub event_uuid: Uuid,
    pub event_template_uuid: Uuid,
    pub trace_uuid: Uuid,
    pub fields: Seq<FieldModel>,
    pub tags: Seq<Seq<char>>,
    pub began_at: Timestamp,
    pub created_at: Timestamp,
}

impl View for Event {
    type V = EventModel;

    open spec fn view(&self) -> EventModel {
        EventModel {
            event_uuid: self.event_uuid,
            event_template_uuid: self.event_template_uuid,
            trace_uuid: self.trace_uuid,
            fields: views(self.fields@),
            tags: views(self.tags@),
            began_at: self.began_at,
            created_at: self.created_at,
        }
    }
}

impl Clone for Event {
    fn clone(&self) -> (r: Self)
        ensures
            r@ == self@,
    {
        let mut fields: Vec<Field> = Vec::new();
        let mut i: usize = 0;
        while i < self.fields.len()
            invariant
                i <= self.fields.len(),
                fields@.len() == i,
                forall|j: int| 0 <= j < i ==> fields@[j]@ == self.fields@[j]@,
            decreases self.fields.len() - i,
        {
            fields.push(self.fields[i].clone());
            i = i + 1;
        }
        assert(views(fields@) =~= views(self.fields@));
        Event {
            event_uuid: self.event_uuid,
            event_template_uuid: self.event_template_uuid,
            trace_uuid: self.trace_uuid,
            fields,
            tags: clone_texts(&self.tags),
            began_at: self.began_at,
            created_at: self.created_at,
        }
    }
}

} // verus!
