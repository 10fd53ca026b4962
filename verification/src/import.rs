//! The definition import: from a JSON document to the templates of a project.
//!
//! A definition is an object with a `project-uuid`, a list of
//! `event-templates` and a list of `trace-templates`. Anything malformed fails
//! the whole import with a message that says what was expected.

use vstd::prelude::*;
use crate::errors::{parsed, parsed_list, ParsingError};
use crate::fs_service::{FileSystemEventsService, ProjectDefinition};
use crate::json::{json_parsed, parse_json_text};
use crate::project::{Project, ProjectModel};
use crate::store::{ProjectDefinitionModel, StoreModel};
use crate::ident::{parse_uuid_text, uuid_parsed, Uuid};
use crate::json::JsonValue;
use crate::clock::Timestamp;
use crate::definition::{
    BoolTemplate, EnumeratedTemplate, EnumeratedTemplateModel, EventTemplate, EventTemplateModel,
    FieldTemplate, FieldTemplateModel, FieldValueTemplate, FieldValueTemplateModel,
    NumberTemplate, TextTemplate, TraceFlowEntry, TraceFlowEntryModel, TraceTemplate,
    TraceTemplateModel,
};
use crate::model::{opt_view, views};
use crate::text::{
    each_replaced, join2, join3, lowercase, replace_all, same_text, str_lowercased,
};
use crate::views::{EnumerationOption, EnumerationOptionModel};

verus! {

/// The identifier that the member `field` of the object `val` spells.
pub open spec fn required_uuid(val: JsonValue, field: Seq<char>) -> Result<Uuid, Seq<char>> {
    if !val.is_object() {
        Err("Expected object"@)
    } else {
        match val.field(field) {
            None => Err("Field "@ + field + " is required"@),
            Some(member) => match member.text() {
                None => Err("Field "@ + field + " is supposed to be a string"@),
                Some(text) => match uuid_parsed(text) {
                    Ok(id) => Ok(id),
                    Err(message) => Err("Failed to parse UUID: "@ + message),
                },
            },
        }
    }
}

/// The identifier that the member `field` of the object `val` spells, or
/// `fallback` where `val` has no such member or it is no string.
pub open spec fn optional_uuid(val: JsonValue, field: Seq<char>, fallback: Uuid) -> Result<
    Uuid,
    Seq<char>,
> {
    if !val.is_object() {
        Err("Expected object"@)
    } else {
        match text_member(val, field) {
            None => Ok(fallback),
            Some(text) => uuid_parsed(text),
        }
    }
}

/// The text of the member `field` of `val`, where `val` is an object that has
/// such a member and the member is a string.
pub open spec fn text_member(val: JsonValue, field: Seq<char>) -> Option<Seq<char>> {
    match val.field(field) {
        Some(member) => member.text(),
        None => None,
    }
}

/// The text of the member `field` of the object `val`, if it has one.
pub open spec fn optional_text(val: JsonValue, field: Seq<char>) -> Result<
    Option<Seq<char>>,
    Seq<char>,
> {
    if !val.is_object() {
        Err("Expected object"@)
    } else {
        Ok(text_member(val, field))
    }
}

/// The outcome of reading a text that may be absent, by its view.
pub open spec fn parsed_text(outcome: Result<Option<String>, ParsingError>) -> Result<
    Option<Seq<char>>,
    Seq<char>,
> {
    match outcome {
        Ok(text) => Ok(opt_view(text)),
        Err(error) => Err(error@),
    }
}

/// The name that a label gives where none is written: the label in lower
/// case, with a hyphen for each space.
pub open spec fn mapped_name(label: Seq<char>) -> Seq<char> {
    str_lowercased(each_replaced(label, ' ', '-'))
}

impl FileSystemEventsService {
    /// Reads the identifier that the member `field` of `val` spells.
    pub fn parse_required_uuid(val: &JsonValue, field: &str) -> (r: Result<Uuid, ParsingError>)
        ensures
            parsed(r) == required_uuid(*val, field@),
    {
        if !val.is_object_value() {
            return Err(ParsingError::new("Expected object"));
        }
        match val.get(field) {
            None => Err(ParsingError { message: join3("Field ", field, " is required") }),
            Some(member) => match member.as_str() {
                None => Err(
                    ParsingError { message: join3("Field ", field, " is supposed to be a string") },
                ),
                Some(text) => match parse_uuid_text(text) {
                    Ok(id) => Ok(id),
                    Err(message) => Err(
                        ParsingError { message: join2("Failed to parse UUID: ", message.as_str()) },
                    ),
                },
            },
        }
    }

    /// Reads the identifier that the member `field` of `val` spells, and
    /// takes `fallback` where there is none to read.
    pub fn parse_optional_uuid(val: &JsonValue, field: &str, fallback: Uuid) -> (r: Result<
        Uuid,
        ParsingError,
    >)
        ensures
            parsed(r) == optional_uuid(*val, field@, fallback),
    {
        if !val.is_object_value() {
            return Err(ParsingError::new("Expected object"));
        }
        let text = match val.get(field) {
            Some(member) => member.as_str(),
            None => None,
        };
        match text {
            None => Ok(fallback),
            Some(text) => match parse_uuid_text(text) {
                Ok(id) => Ok(id),
                Err(message) => Err(ParsingError { message }),
            },
        }
    }

    /// Reads the text of the member `field` of `val`, if it has one.
    pub fn parse_str(val: &JsonValue, field: &str) -> (r: Result<Option<String>, ParsingError>)
        ensures
            parsed_text(r) == optional_text(*val, field@),
    {
        if !val.is_object_value() {
            return Err(ParsingError::new("Expected object"));
        }
        match val.get(field) {
            Some(member) => match member.as_str() {
                Some(text) => Ok(Some(text.to_owned())),
                None => Ok(None),
            },
            None => Ok(None),
        }
    }

    /// The name that a label gives where none is written.
    pub fn map_name(name: &str) -> (r: String)
        ensures
            r@ == mapped_name(name@),
    {
        proof {
            reveal_strlit(" ");
            reveal_strlit("-");
        }
        let hyphenated = replace_all(name, " ", "-");
        lowercase(hyphenated.as_str())
    }
}

/// Whether every outcome in the list is a success.
pub open spec fn all_ok<T>(outcomes: Seq<Result<T, Seq<char>>>) -> bool {
    forall|i: int| 0 <= i < outcomes.len() ==> (#[trigger] outcomes[i]) is Ok
}

/// Whether the outcome at `at` is the first failure in the list.
pub open spec fn first_failure<T>(outcomes: Seq<Result<T, Seq<char>>>, at: int) -> bool {
    &&& 0 <= at < outcomes.len()
    &&& outcomes[at] is Err
    &&& forall|j: int| 0 <= j < at ==> (#[trigger] outcomes[j]) is Ok
}

/// The outcomes of a list of steps taken as one: all the values in order
/// where every step succeeded, else the first failure.
pub open spec fn collected<T>(outcomes: Seq<Result<T, Seq<char>>>) -> Result<Seq<T>, Seq<char>> {
    if all_ok(outcomes) {
        Ok(Seq::new(outcomes.len(), |i: int| outcomes[i]->Ok_0))
    } else {
        Err(outcomes[choose|at: int| first_failure(outcomes, at)]->Err_0)
    }
}

/// Where every step succeeded with the values `values`, the whole succeeds
/// with them.
pub proof fn lemma_collected_ok<T>(outcomes: Seq<Result<T, Seq<char>>>, values: Seq<T>)
    requires
        values.len() == outcomes.len(),
        forall|i: int|
            0 <= i < outcomes.len() ==> (#[trigger] outcomes[i]) is Ok && outcomes[i]->Ok_0
                == values[i],
    ensures
        collected(outcomes) is Ok,
        collected(outcomes)->Ok_0 == values,
{
    assert(all_ok(outcomes));
    assert(Seq::new(outcomes.len(), |i: int| outcomes[i]->Ok_0) =~= values);
}

/// Where the step at `at` is the first to fail, the whole fails as it does.
pub proof fn lemma_collected_err<T>(outcomes: Seq<Result<T, Seq<char>>>, at: int)
    requires
        first_failure(outcomes, at),
    ensures
        collected(outcomes) is Err,
        collected(outcomes)->Err_0 == outcomes[at]->Err_0,
{
    assert(!all_ok(outcomes));
    let chosen = choose|k: int| first_failure(outcomes, k);
    assert(first_failure(outcomes, chosen));
    if chosen < at {
        assert(outcomes[chosen] is Ok);
    }
    if at < chosen {
        assert(outcomes[at] is Ok);
    }
}

/// The option that one element of `options` declares: its `label`, and its
/// `name` or, without one, the name that the label gives.
pub open spec fn option_of(val: JsonValue) -> Result<EnumerationOptionModel, Seq<char>> {
    if !val.is_object() {
        Err("Expected the option to be an object"@)
    } else {
        match val.field("label"@) {
            None => Err("Expected 'label' field"@),
            Some(member) => match member.text() {
                None => Err("Expected 'label' to be a string"@),
                Some(label) => Ok(
                    EnumerationOptionModel {
                        name: match text_member(val, "name"@) {
                            Some(name) => name,
                            None => mapped_name(label),
                        },
                        label,
                    },
                ),
            },
        }
    }
}

/// What each element of `options` declares.
pub open spec fn options_of(items: Seq<JsonValue>) -> Seq<
    Result<EnumerationOptionModel, Seq<char>>,
> {
    Seq::new(items.len(), |i: int| option_of(items[i]))
}

/// The first option at or after `from` whose name or label is `wanted`.
pub open spec fn option_named(options: Seq<EnumerationOptionModel>, wanted: Seq<char>, from: int)
    -> Option<EnumerationOptionModel>
    decreases options.len() - from,
{
    if from < 0 || from >= options.len() {
        None
    } else if options[from].name == wanted || options[from].label == wanted {
        Some(options[from])
    } else {
        option_named(options, wanted, from + 1)
    }
}

/// The enumerated field that `val` declares: its `options`, and as default
/// the first option that `default-value` names by name or label.
pub open spec fn enumerated_template_of(val: JsonValue) -> Result<
    EnumeratedTemplateModel,
    Seq<char>,
> {
    if !val.is_object() {
        Err("Expected object"@)
    } else {
        match val.field("options"@) {
            None => Err("Expected 'options' field"@),
            Some(member) => match member.items() {
                None => Err("Expected 'options' to be an array"@),
                Some(items) => match collected(options_of(items)) {
                    Err(message) => Err(message),
                    Ok(options) => match val.field("default-value"@) {
                        None => Ok(EnumeratedTemplateModel { default_value: None, options }),
                        Some(default) => match default.text() {
                            None => Err("Expected 'default-value' to be a string"@),
                            Some(wanted) => match option_named(options, wanted, 0) {
                                None => Err(
                                    "Default value "@ + wanted + " not found in options"@,
                                ),
                                Some(option) => Ok(
                                    EnumeratedTemplateModel {
                                        default_value: Some(option),
                                        options,
                                    },
                                ),
                            },
                        },
                    },
                },
            },
        }
    }
}

impl FileSystemEventsService {
    /// Reads one option of an enumerated field.
    pub fn parse_enumeration_option(val: &JsonValue) -> (r: Result<
        EnumerationOption,
        ParsingError,
    >)
        ensures
            parsed(r) == option_of(*val),
    {
        if !val.is_object_value() {
            return Err(ParsingError::new("Expected the option to be an object"));
        }
        let label = match val.get("label") {
            None => {
                return Err(ParsingError::new("Expected 'label' field"));
            },
            Some(member) => match member.as_str() {
                None => {
                    return Err(ParsingError::new("Expected 'label' to be a string"));
                },
                Some(label) => label,
            },
        };
        let written = match val.get("name") {
            Some(member) => member.as_str(),
            None => None,
        };
        let name = match written {
            Some(name) => name.to_owned(),
            None => Self::map_name(label),
        };
        Ok(EnumerationOption { name, label: label.to_owned() })
    }

    /// Reads the options and the default of an enumerated field.
    pub fn parse_enumerated_template(val: &JsonValue) -> (r: Result<
        EnumeratedTemplate,
        ParsingError,
    >)
        ensures
            parsed(r) == enumerated_template_of(*val),
    {
        if !val.is_object_value() {
            return Err(ParsingError::new("Expected object"));
        }
        let items = match val.get("options") {
            None => {
                return Err(ParsingError::new("Expected 'options' field"));
            },
            Some(member) => match member.as_array() {
                None => {
                    return Err(ParsingError::new("Expected 'options' to be an array"));
                },
                Some(items) => items,
            },
        };
        let mut options: Vec<EnumerationOption> = Vec::new();
        let mut i: usize = 0;
        while i < items.len()
            invariant
                i <= items.len(),
                val.is_object(),
                val.field("options"@) matches Some(member) && member.items() == Some(items@),
                options@.len() == i,
                forall|j: int|
                    0 <= j < i ==> (#[trigger] options_of(items@)[j]) is Ok && options_of(
                        items@,
                    )[j]->Ok_0 == options@[j]@,
            decreases items.len() - i,
        {
            match Self::parse_enumeration_option(&items[i]) {
                Ok(option) => {
                    options.push(option);
                },
                Err(error) => {
                    proof {
                        lemma_collected_err(options_of(items@), i as int);
                    }
                    return Err(error);
                },
            }
            i = i + 1;
        }
        proof {
            lemma_collected_ok(options_of(items@), views(options@));
        }
        let default_value = match val.get("default-value") {
            None => None,
            Some(default) => match default.as_str() {
                None => {
                    return Err(ParsingError::new("Expected 'default-value' to be a string"));
                },
                Some(wanted) => {
                    let mut found: Option<EnumerationOption> = None;
                    let mut k: usize = 0;
                    while k < options.len() && found.is_none()
                        invariant
                            k <= options.len(),
                            found is None ==> option_named(views(options@), wanted@, 0)
                                == option_named(views(options@), wanted@, k as int),
                            found matches Some(option) ==> option_named(
                                views(options@),
                                wanted@,
                                0,
                            ) == Some(option@),
                        decreases options.len() - k + if found is None { 1int } else { 0int },
                    {
                        if same_text(options[k].name.as_str(), wanted) || same_text(
                            options[k].label.as_str(),
                            wanted,
                        ) {
                            found = Some(options[k].clone());
                        } else {
                            k = k + 1;
                        }
                    }
                    match found {
                        None => {
                            return Err(
                                ParsingError {
                                    message: join3(
                                        "Default value ",
                                        wanted,
                                        " not found in options",
                                    ),
                                },
                            );
                        },
                        Some(option) => Some(option),
                    }
                },
            },
        };
        Ok(EnumeratedTemplate { default_value, options })
    }
}

/// The default that `val` declares in `default-value`, read by `read`: none
/// without the member, and `complaint` where `read` cannot read it.
pub open spec fn default_of<T>(
    val: JsonValue,
    read: spec_fn(JsonValue) -> Option<T>,
    complaint: Seq<char>,
) -> Result<Option<T>, Seq<char>> {
    match val.field("default-value"@) {
        None => Ok(None),
        Some(default) => match read(default) {
            Some(value) => Ok(Some(value)),
            None => Err(complaint),
        },
    }
}

/// The kind of value that the field `val` of type `kind` takes, with its
/// default checked against the kind.
pub open spec fn field_value_template_of(val: JsonValue, kind: Seq<char>) -> Result<
    FieldValueTemplateModel,
    Seq<char>,
> {
    if kind == "Number"@ {
        match default_of(val, |d: JsonValue| d.number(), "Expected a number"@) {
            Ok(default) => Ok(FieldValueTemplateModel::Number(default)),
            Err(message) => Err(message),
        }
    } else if kind == "Text"@ {
        match default_of(val, |d: JsonValue| d.text(), "Expected a string"@) {
            Ok(default) => Ok(FieldValueTemplateModel::Text(default)),
            Err(message) => Err(message),
        }
    } else if kind == "Boolean"@ {
        match default_of(val, |d: JsonValue| d.truth(), "Expected a boolean"@) {
            Ok(default) => Ok(FieldValueTemplateModel::Bool(default)),
            Err(message) => Err(message),
        }
    } else if kind == "Enumerated"@ {
        match enumerated_template_of(val) {
            Ok(template) => Ok(FieldValueTemplateModel::Enumerated(template)),
            Err(message) => Err(message),
        }
    } else {
        Err("Unknown field type: "@ + kind)
    }
}

/// The field that `val` declares: its `type`, its `label`, its `name` or,
/// without one, the name that the label gives, and its default.
pub open spec fn field_template_of(val: JsonValue) -> Result<FieldTemplateModel, Seq<char>> {
    if !val.is_object() {
        Err("Expected object"@)
    } else {
        match text_member(val, "type"@) {
            None => Err("Field type is required"@),
            Some(kind) => match text_member(val, "label"@) {
                None => Err("Field label is required"@),
                Some(label) => match field_value_template_of(val, kind) {
                    Err(message) => Err(message),
                    Ok(value) => Ok(
                        FieldTemplateModel {
                            name: match text_member(val, "name"@) {
                                Some(name) => name,
                                None => mapped_name(label),
                            },
                            label,
                            value,
                        },
                    ),
                },
            },
        }
    }
}

/// What each element of `fields` declares.
pub open spec fn field_outcomes(items: Seq<JsonValue>) -> Seq<
    Result<FieldTemplateModel, Seq<char>>,
> {
    Seq::new(items.len(), |i: int| field_template_of(items[i]))
}

/// The fields that the array `val` declares, in its order.
pub open spec fn field_templates_of(val: JsonValue) -> Result<Seq<FieldTemplateModel>, Seq<char>> {
    match val.items() {
        None => Err("Expected array"@),
        Some(items) => collected(field_outcomes(items)),
    }
}

impl FileSystemEventsService {
    /// Reads one field of an event template.
    pub fn parse_field_template(val: &JsonValue) -> (r: Result<FieldTemplate, ParsingError>)
        ensures
            parsed(r) == field_template_of(*val),
    {
        if !val.is_object_value() {
            return Err(ParsingError::new("Expected object"));
        }
        let field_type = match Self::parse_str(val, "type") {
            Err(error) => {
                return Err(error);
            },
            Ok(None) => {
                return Err(ParsingError::new("Field type is required"));
            },
            Ok(Some(field_type)) => field_type,
        };
        let label = match Self::parse_str(val, "label") {
            Err(error) => {
                return Err(error);
            },
            Ok(None) => {
                return Err(ParsingError::new("Field label is required"));
            },
            Ok(Some(label)) => label,
        };
        let name = match Self::parse_str(val, "name") {
            Err(error) => {
                return Err(error);
            },
            Ok(None) => Self::map_name(label.as_str()),
            Ok(Some(name)) => name,
        };
        let default_value = val.get("default-value");
        let value = if same_text(field_type.as_str(), "Number") {
            FieldValueTemplate::Number(
                NumberTemplate {
                    default_value: match default_value {
                        None => None,
                        Some(default) => match default.as_number() {
                            Some(number) => Some(number),
                            None => {
                                return Err(ParsingError::new("Expected a number"));
                            },
                        },
                    },
                },
            )
        } else if same_text(field_type.as_str(), "Text") {
            FieldValueTemplate::Text(
                TextTemplate {
                    default_value: match default_value {
                        None => None,
                        Some(default) => match default.as_str() {
                            Some(text) => Some(text.to_owned()),
                            None => {
                                return Err(ParsingError::new("Expected a string"));
                            },
                        },
                    },
                },
            )
        } else if same_text(field_type.as_str(), "Boolean") {
            FieldValueTemplate::Bool(
                BoolTemplate {
                    default_value: match default_value {
                        None => None,
                        Some(default) => match default.as_bool() {
                            Some(truth) => Some(truth),
                            None => {
                                return Err(ParsingError::new("Expected a boolean"));
                            },
                        },
                    },
                },
            )
        } else if same_text(field_type.as_str(), "Enumerated") {
            match Self::parse_enumerated_template(val) {
                Ok(template) => FieldValueTemplate::Enumerated(template),
                Err(error) => {
                    return Err(error);
                },
            }
        } else {
            return Err(
                ParsingError { message: join2("Unknown field type: ", field_type.as_str()) },
            );
        };
        Ok(FieldTemplate { name, label, value })
    }

    /// Reads the fields of an event template.
    pub fn parse_field_templates(val: &JsonValue) -> (r: Result<Vec<FieldTemplate>, ParsingError>)
        ensures
            parsed_list(r) == field_templates_of(*val),
    {
        let items = match val.as_array() {
            None => {
                return Err(ParsingError::new("Expected array"));
            },
            Some(items) => items,
        };
        let mut fields: Vec<FieldTemplate> = Vec::new();
        let mut i: usize = 0;
        while i < items.len()
            invariant
                i <= items.len(),
                val.items() == Some(items@),
                fields@.len() == i,
                forall|j: int|
                    0 <= j < i ==> (#[trigger] field_outcomes(items@)[j]) is Ok && field_outcomes(
                        items@,
                    )[j]->Ok_0 == fields@[j]@,
            decreases items.len() - i,
        {
            match Self::parse_field_template(&items[i]) {
                Ok(field) => {
                    fields.push(field);
                },
                Err(error) => {
                    proof {
                        lemma_collected_err(field_outcomes(items@), i as int);
                    }
                    return Err(error);
                },
            }
            i = i + 1;
        }
        proof {
            lemma_collected_ok(field_outcomes(items@), views(fields@));
        }
        Ok(fields)
    }
}

/// The event template that `val` declares, created at `now`: its two
/// identifiers, its `name` or a stock name, and its `fields` or none.
pub open spec fn event_template_of(val: JsonValue, now: Timestamp) -> Result<
    EventTemplateModel,
    Seq<char>,
> {
    if !val.is_object() {
        Err("Expected object"@)
    } else {
        match required_uuid(val, "event-template-uuid"@) {
            Err(message) => Err(message),
            Ok(event_template_uuid) => match required_uuid(val, "trace-template-uuid"@) {
                Err(message) => Err(message),
                Ok(trace_template_uuid) => match match val.field("fields"@) {
                    None => Ok(Seq::empty()),
                    Some(fields) => field_templates_of(fields),
                } {
                    Err(message) => Err(message),
                    Ok(fields) => Ok(
                        EventTemplateModel {
                            event_template_uuid,
                            trace_template_uuid,
                            name: match text_member(val, "name"@) {
                                Some(name) => name,
                                None => "Unnamed Event Template"@,
                            },
                            fields,
                            default_tags: Seq::empty(),
                            created_at: now,
                        },
                    ),
                },
            },
        }
    }
}

/// What each element of `event-templates` declares.
pub open spec fn event_template_outcomes(items: Seq<JsonValue>, now: Timestamp) -> Seq<
    Result<EventTemplateModel, Seq<char>>,
> {
    Seq::new(items.len(), |i: int| event_template_of(items[i], now))
}

/// The event templates that the array `val` declares, in its order.
pub open spec fn event_templates_of(val: JsonValue, now: Timestamp) -> Result<
    Seq<EventTemplateModel>,
    Seq<char>,
> {
    match val.items() {
        None => Err("Expected array"@),
        Some(items) => collected(event_template_outcomes(items, now)),
    }
}

/// The identifier that one element of a transition's `to` spells.
pub open spec fn target_of(val: JsonValue) -> Result<Uuid, Seq<char>> {
    match val.text() {
        None => Err("Expected a string, found: "@ + val.kind_name()),
        Some(text) => uuid_parsed(text),
    }
}

/// What each element of a transition's `to` spells.
pub open spec fn target_outcomes(items: Seq<JsonValue>) -> Seq<Result<Uuid, Seq<char>>> {
    Seq::new(items.len(), |i: int| target_of(items[i]))
}

/// The transition that `val` declares: `from` one event template `to` a list
/// of them.
pub open spec fn flow_entry_of(val: JsonValue) -> Result<TraceFlowEntryModel, Seq<char>> {
    match required_uuid(val, "from"@) {
        Err(message) => Err(message),
        Ok(from) => match val.field("to"@) {
            None => Err("Expected flow to have a 'to' field"@),
            Some(member) => match member.items() {
                None => Err("Expected flow 'to' to be an array"@),
                Some(items) => match collected(target_outcomes(items)) {
                    Err(message) => Err(message),
                    Ok(to) => Ok(TraceFlowEntryModel { from, to }),
                },
            },
        },
    }
}

/// What each element of `transitions` declares.
pub open spec fn flow_entry_outcomes(items: Seq<JsonValue>) -> Seq<
    Result<TraceFlowEntryModel, Seq<char>>,
> {
    Seq::new(items.len(), |i: int| flow_entry_of(items[i]))
}

/// The transitions that the array `val` declares, in its order.
pub open spec fn flow_entries_of(val: JsonValue) -> Result<Seq<TraceFlowEntryModel>, Seq<char>> {
    match val.items() {
        None => Err("Expected an array of trace flow entries. Found: "@ + val.kind_name()),
        Some(items) => collected(flow_entry_outcomes(items)),
    }
}

/// The trace template that `val` declares for the project `project_uuid`,
/// created at `now`: its identifier, its `name` or a stock name, and its
/// `transitions` or none.
pub open spec fn trace_template_of(val: JsonValue, project_uuid: Uuid, now: Timestamp) -> Result<
    TraceTemplateModel,
    Seq<char>,
> {
    if !val.is_object() {
        Err("Expected object"@)
    } else {
        match required_uuid(val, "trace-template-uuid"@) {
            Err(message) => Err(message),
            Ok(trace_template_uuid) => match match val.field("transitions"@) {
                None => Ok(Seq::empty()),
                Some(transitions) => flow_entries_of(transitions),
            } {
                Err(message) => Err(message),
                Ok(flow) => Ok(
                    TraceTemplateModel {
                        trace_template_uuid,
                        project_uuid,
                        name: match text_member(val, "name"@) {
                            Some(name) => name,
                            None => "Unnamed Trace Template"@,
                        },
                        created_at: now,
                        flow,
                    },
                ),
            },
        }
    }
}

/// What each element of `trace-templates` declares.
pub open spec fn trace_template_outcomes(items: Seq<JsonValue>, project_uuid: Uuid, now: Timestamp)
    -> Seq<Result<TraceTemplateModel, Seq<char>>> {
    Seq::new(items.len(), |i: int| trace_template_of(items[i], project_uuid, now))
}

/// The trace templates that the array `val` declares, in its order.
pub open spec fn trace_templates_of(val: JsonValue, project_uuid: Uuid, now: Timestamp) -> Result<
    Seq<TraceTemplateModel>,
    Seq<char>,
> {
    match val.items() {
        None => Err("Expected array"@),
        Some(items) => collected(trace_template_outcomes(items, project_uuid, now)),
    }
}

/// The definition that the document `doc` declares, with every template
/// created at `now`: the project's identifier, then the event templates, then
/// the trace templates. The first thing that is malformed fails the whole.
pub open spec fn definition_of(doc: JsonValue, now: Timestamp) -> Result<
    ProjectDefinitionModel,
    Seq<char>,
> {
    match required_uuid(doc, "project-uuid"@) {
        Err(message) => Err(message),
        Ok(project_uuid) => match match doc.field("event-templates"@) {
            None => Ok(Seq::empty()),
            Some(list) => event_templates_of(list, now),
        } {
            Err(message) => Err(message),
            Ok(event_templates) => match match doc.field("trace-templates"@) {
                None => Ok(Seq::empty()),
                Some(list) => trace_templates_of(list, project_uuid, now),
            } {
                Err(message) => Err(message),
                Ok(trace_templates) => Ok(
                    ProjectDefinitionModel { project_uuid, event_templates, trace_templates },
                ),
            },
        },
    }
}

impl FileSystemEventsService {
    /// Reads one event template, created at `now`.
    pub fn parse_event_template(val: &JsonValue, now: Timestamp) -> (r: Result<
        EventTemplate,
        ParsingError,
    >)
        ensures
            parsed(r) == event_template_of(*val, now),
    {
        if !val.is_object_value() {
            return Err(ParsingError::new("Expected object"));
        }
        let event_template_uuid = match Self::parse_required_uuid(val, "event-template-uuid") {
            Ok(id) => id,
            Err(error) => {
                return Err(error);
            },
        };
        let trace_template_uuid = match Self::parse_required_uuid(val, "trace-template-uuid") {
            Ok(id) => id,
            Err(error) => {
                return Err(error);
            },
        };
        let name = match Self::parse_str(val, "name") {
            Err(error) => {
                return Err(error);
            },
            Ok(None) => "Unnamed Event Template".to_owned(),
            Ok(Some(name)) => name,
        };
        let fields = match val.get("fields") {
            None => Vec::new(),
            Some(fields) => match Self::parse_field_templates(fields) {
                Ok(fields) => fields,
                Err(error) => {
                    return Err(error);
                },
            },
        };
        let template = EventTemplate {
            event_template_uuid,
            trace_template_uuid,
            name,
            fields,
            default_tags: Vec::new(),
            created_at: now,
        };
        proof {
            let model = event_template_of(*val, now)->Ok_0;
            assert(template@.fields =~= model.fields);
            assert(template@.default_tags =~= model.default_tags);
        }
        Ok(template)
    }

    /// Reads the event templates of a definition, each created at `now`.
    pub fn parse_event_templates(val: &JsonValue, now: Timestamp) -> (r: Result<
        Vec<EventTemplate>,
        ParsingError,
    >)
        ensures
            parsed_list(r) == event_templates_of(*val, now),
    {
        let items = match val.as_array() {
            None => {
                return Err(ParsingError::new("Expected array"));
            },
            Some(items) => items,
        };
        let mut templates: Vec<EventTemplate> = Vec::new();
        let mut i: usize = 0;
        while i < items.len()
            invariant
                i <= items.len(),
                val.items() == Some(items@),
                templates@.len() == i,
                forall|j: int|
                    0 <= j < i ==> (#[trigger] event_template_outcomes(items@, now)[j]) is Ok
                        && event_template_outcomes(items@, now)[j]->Ok_0 == templates@[j]@,
            decreases items.len() - i,
        {
            match Self::parse_event_template(&items[i], now) {
                Ok(template) => {
                    templates.push(template);
                },
                Err(error) => {
                    proof {
                        lemma_collected_err(event_template_outcomes(items@, now), i as int);
                    }
                    return Err(error);
                },
            }
            i = i + 1;
        }
        proof {
            lemma_collected_ok(event_template_outcomes(items@, now), views(templates@));
        }
        Ok(templates)
    }

    /// Reads one transition of a trace template.
    pub fn parse_trace_flow_entry(val: &JsonValue) -> (r: Result<TraceFlowEntry, ParsingError>)
        ensures
            parsed(r) == flow_entry_of(*val),
    {
        let from = match Self::parse_required_uuid(val, "from") {
            Ok(id) => id,
            Err(error) => {
                return Err(error);
            },
        };
        let items = match val.get("to") {
            None => {
                return Err(ParsingError::new("Expected flow to have a 'to' field"));
            },
            Some(member) => match member.as_array() {
                None => {
                    return Err(ParsingError::new("Expected flow 'to' to be an array"));
                },
                Some(items) => items,
            },
        };
        let mut to: Vec<Uuid> = Vec::new();
        let mut i: usize = 0;
        while i < items.len()
            invariant
                i <= items.len(),
                required_uuid(*val, "from"@) is Ok,
                val.field("to"@) matches Some(member) && member.items() == Some(items@),
                to@.len() == i,
                forall|j: int|
                    0 <= j < i ==> (#[trigger] target_outcomes(items@)[j]) is Ok
                        && target_outcomes(items@)[j]->Ok_0 == to@[j],
            decreases items.len() - i,
        {
            let target = match items[i].as_str() {
                None => Err(
                    ParsingError {
                        message: join2("Expected a string, found: ", items[i].kind()),
                    },
                ),
                Some(text) => match parse_uuid_text(text) {
                    Ok(id) => Ok(id),
                    Err(message) => Err(ParsingError { message }),
                },
            };
            match target {
                Ok(id) => {
                    to.push(id);
                },
                Err(error) => {
                    proof {
                        lemma_collected_err(target_outcomes(items@), i as int);
                    }
                    return Err(error);
                },
            }
            i = i + 1;
        }
        proof {
            lemma_collected_ok(target_outcomes(items@), to@);
        }
        Ok(TraceFlowEntry { from, to })
    }

    /// Reads the transitions of a trace template.
    pub fn parse_trace_flow_entries(val: &JsonValue) -> (r: Result<
        Vec<TraceFlowEntry>,
        ParsingError,
    >)
        ensures
            parsed_list(r) == flow_entries_of(*val),
    {
        let items = match val.as_array() {
            None => {
                return Err(
                    ParsingError {
                        message: join2(
                            "Expected an array of trace flow entries. Found: ",
                            val.kind(),
                        ),
                    },
                );
            },
            Some(items) => items,
        };
        let mut entries: Vec<TraceFlowEntry> = Vec::new();
        let mut i: usize = 0;
        while i < items.len()
            invariant
                i <= items.len(),
                val.items() == Some(items@),
                entries@.len() == i,
                forall|j: int|
                    0 <= j < i ==> (#[trigger] flow_entry_outcomes(items@)[j]) is Ok
                        && flow_entry_outcomes(items@)[j]->Ok_0 == entries@[j]@,
            decreases items.len() - i,
        {
            match Self::parse_trace_flow_entry(&items[i]) {
                Ok(entry) => {
                    entries.push(entry);
                },
                Err(error) => {
                    proof {
                        lemma_collected_err(flow_entry_outcomes(items@), i as int);
                    }
                    return Err(error);
                },
            }
            i = i + 1;
        }
        proof {
            lemma_collected_ok(flow_entry_outcomes(items@), views(entries@));
        }
        Ok(entries)
    }

    /// Reads one trace template of the project `project_uuid`, created at
    /// `now`.
    pub fn parse_trace_template(val: &JsonValue, project_uuid: Uuid, now: Timestamp) -> (r: Result<
        TraceTemplate,
        ParsingError,
    >)
        ensures
            parsed(r) == trace_template_of(*val, project_uuid, now),
    {
        if !val.is_object_value() {
            return Err(ParsingError::new("Expected object"));
        }
        let trace_template_uuid = match Self::parse_required_uuid(val, "trace-template-uuid") {
            Ok(id) => id,
            Err(error) => {
                return Err(error);
            },
        };
        let name = match Self::parse_str(val, "name") {
            Err(error) => {
                return Err(error);
            },
            Ok(None) => "Unnamed Trace Template".to_owned(),
            Ok(Some(name)) => name,
        };
        let flow = match val.get("transitions") {
            None => Vec::new(),
            Some(transitions) => match Self::parse_trace_flow_entries(transitions) {
                Ok(flow) => flow,
                Err(error) => {
                    return Err(error);
                },
            },
        };
        let template = TraceTemplate {
            trace_template_uuid,
            project_uuid,
            name,
            created_at: now,
            flow,
        };
        proof {
            let model = trace_template_of(*val, project_uuid, now)->Ok_0;
            assert(template@.flow =~= model.flow);
        }
        Ok(template)
    }

    /// Reads the trace templates of a definition, each created at `now`.
    pub fn parse_trace_templates(val: &JsonValue, project_uuid: Uuid, now: Timestamp) -> (r: Result<
        Vec<TraceTemplate>,
        ParsingError,
    >)
        ensures
            parsed_list(r) == trace_templates_of(*val, project_uuid, now),
    {
        let items = match val.as_array() {
            None => {
                return Err(ParsingError::new("Expected array"));
            },
            Some(items) => items,
        };
        let mut templates: Vec<TraceTemplate> = Vec::new();
        let mut i: usize = 0;
        while i < items.len()
            invariant
                i <= items.len(),
                val.items() == Some(items@),
                templates@.len() == i,
                forall|j: int|
                    0 <= j < i ==> (#[trigger] trace_template_outcomes(
                        items@,
                        project_uuid,
                        now,
                    )[j]) is Ok && trace_template_outcomes(items@, project_uuid, now)[j]->Ok_0
                        == templates@[j]@,
            decreases items.len() - i,
        {
            match Self::parse_trace_template(&items[i], project_uuid, now) {
                Ok(template) => {
                    templates.push(template);
                },
                Err(error) => {
                    proof {
                        lemma_collected_err(
                            trace_template_outcomes(items@, project_uuid, now),
                            i as int,
                        );
                    }
                    return Err(error);
                },
            }
            i = i + 1;
        }
        proof {
            lemma_collected_ok(
                trace_template_outcomes(items@, project_uuid, now),
                views(templates@),
            );
        }
        Ok(templates)
    }

    /// Reads a whole definition, with every template created at `now`.
    pub fn parse_definition(doc: &JsonValue, now: Timestamp) -> (r: Result<
        ProjectDefinition,
        ParsingError,
    >)
        ensures
            parsed(r) == definition_of(*doc, now),
    {
        let project_uuid = match Self::parse_required_uuid(doc, "project-uuid") {
            Ok(id) => id,
            Err(error) => {
                return Err(error);
            },
        };
        let event_templates = match doc.get("event-templates") {
            None => Vec::new(),
            Some(list) => match Self::parse_event_templates(list, now) {
                Ok(templates) => templates,
                Err(error) => {
                    return Err(error);
                },
            },
        };
        let trace_templates = match doc.get("trace-templates") {
            None => Vec::new(),
            Some(list) => match Self::parse_trace_templates(list, project_uuid, now) {
                Ok(templates) => templates,
                Err(error) => {
                    return Err(error);
                },
            },
        };
        let definition = ProjectDefinition { project_uuid, event_templates, trace_templates };
        proof {
            let model = definition_of(*doc, now)->Ok_0;
            assert(definition@.event_templates =~= model.event_templates);
            assert(definition@.trace_templates =~= model.trace_templates);
        }
        Ok(definition)
    }
}

/// The repository after the import of the document `doc` at the time `now`
/// for a project of the name `project_name`: the project under the
/// document's identifier and the templates that the document declares. A
/// malformed document gives its complaint, and nothing of it is kept.
pub open spec fn imported(store: StoreModel, project_name: Seq<char>, doc: JsonValue, now: Timestamp)
    -> Result<StoreModel, Seq<char>> {
    match definition_of(doc, now) {
        Err(message) => Err(message),
        Ok(definition) => Ok(
            store.with_project(
                ProjectModel {
                    project_uuid: definition.project_uuid,
                    name: project_name,
                    created_at: now,
                },
            ).with_definition(definition),
        ),
    }
}

/// The repository after the import of the text `text` at the time `now`:
/// the text is read as JSON, and the document is imported.
pub open spec fn import_outcome(
    store: StoreModel,
    project_name: Seq<char>,
    text: Seq<char>,
    now: Timestamp,
) -> Result<StoreModel, Seq<char>> {
    match json_parsed(text) {
        Err(message) => Err(message),
        Ok(doc) => imported(store, project_name, doc, now),
    }
}

/// What an attempt to import left: the repository after it, or the
/// complaint.
pub open spec fn import_left(outcome: Result<(), ParsingError>, store: StoreModel) -> Result<
    StoreModel,
    Seq<char>,
> {
    match outcome {
        Ok(_) => Ok(store),
        Err(error) => Err(error@),
    }
}

impl FileSystemEventsService {
    /// Reads a text as a JSON document.
    pub fn parse_document(text: &str) -> (r: Result<JsonValue, ParsingError>)
        ensures
            r matches Ok(doc) ==> json_parsed(text@) is Ok && json_parsed(text@)->Ok_0 == doc,
            r matches Err(error) ==> json_parsed(text@) is Err && json_parsed(text@)->Err_0
                == error@,
    {
        match parse_json_text(text) {
            Ok(doc) => Ok(doc),
            Err(message) => Err(ParsingError { message }),
        }
    }

    /// Imports the definition that the document `doc` declares, for a project
    /// of the name `project_name`, at the time `now`. Where the document is
    /// malformed the repository stays as it was.
    pub fn import_definition_at(&mut self, project_name: String, doc: &JsonValue, now: Timestamp)
        -> (r: Result<(), ParsingError>)
        ensures
            import_left(r, final(self)@) == imported(old(self)@, project_name@, *doc, now),
            r is Err ==> final(self)@ == old(self)@,
    {
        let definition = match Self::parse_definition(doc, now) {
            Ok(definition) => definition,
            Err(error) => {
                return Err(error);
            },
        };
        self.import_project(
            Project { project_uuid: definition.project_uuid, name: project_name, created_at: now },
        );
        self.import_project_definition(definition);
        Ok(())
    }
}

} // verus!
