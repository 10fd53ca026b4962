//! Error values returned by lookups and by the definition import.

use vstd::prelude::*;
use vstd::std_specs::convert::FromSpecImpl;
use crate::ident::Uuid;

verus! {

/// Something was looked up and is not in the store.
#[derive(Debug, PartialEq, Eq)]
pub struct NotFoundError {
    pub message: String,
}

impl View for NotFoundError {
    type V = Seq<char>;

    open spec fn view(&self) -> Seq<char> {
        self.message@
    }
}

/// No event template has the identifier that was asked for.
#[derive(Clone, Copy, Debug, PartialEq, Eq, Structural)]
pub struct EventTemplateNotFound {
    pub event_template_uuid: Uuid,
}

/// No trace template has the identifier that was asked for.
#[derive(Clone, Copy, Debug, PartialEq, Eq, Structural)]
pub struct TraceTemplateNotFound {
    pub trace_template_uuid: Uuid,
}

/// A definition could not be imported: the message says why.
///
/// Failures to read the document, to parse it as JSON and to find in it what
/// a definition needs all come as this one kind, told apart by their message.
#[derive(Debug, PartialEq, Eq)]
pub struct ParsingError {
    pub message: String,
}

impl View for ParsingError {
    type V = Seq<char>;

    open spec fn view(&self) -> Seq<char> {
        self.message@
    }
}

impl ParsingError {
    /// The error with a copy of `message`.
    pub fn new(message: &str) -> (r: ParsingError)
        ensures
            r@ == message@,
    {
        ParsingError { message: message.to_owned() }
    }
}

impl FromSpecImpl<String> for ParsingError {
    open spec fn obeys_from_spec() -> bool {
        true
    }

    open spec fn from_spec(v: String) -> ParsingError {
        ParsingError { message: v }
    }
}

impl From<String> for ParsingError {
    /// The error with the message `message`.
    fn from(message: String) -> (r: ParsingError) {
        ParsingError { message }
    }
}

impl<'a> FromSpecImpl<&'a str> for ParsingError {
    open spec fn obeys_from_spec() -> bool {
        false
    }

    open spec fn from_spec(v: &'a str) -> ParsingError {
        arbitrary()
    }
}

impl<'a> From<&'a str> for ParsingError {
    /// The error with a copy of `message`.
    fn from(message: &'a str) -> (r: ParsingError)
        ensures
            r@ == message@,
    {
        ParsingError::new(message)
    }
}

/// `std::io::Error`, the failure of a read or a write. Nothing is known of
/// what is inside.
#[verifier::external_type_specification]
#[verifier::external_body]
pub struct ExIoError(std::io::Error);

impl FromSpecImpl<std::io::Error> for ParsingError {
    open spec fn obeys_from_spec() -> bool {
        false
    }

    open spec fn from_spec(v: std::io::Error) -> ParsingError {
        arbitrary()
    }
}

impl From<std::io::Error> for ParsingError {
    /// The error whose message is what the failed read or write says of
    /// itself.
    fn from(error: std::io::Error) -> (r: ParsingError) {
        ParsingError { message: error.to_string() }
    }
}

impl FromSpecImpl<Uuid> for EventTemplateNotFound {
    open spec fn obeys_from_spec() -> bool {
        true
    }

    open spec fn from_spec(v: Uuid) -> EventTemplateNotFound {
        EventTemplateNotFound { event_template_uuid: v }
    }
}

impl From<Uuid> for EventTemplateNotFound {
    /// The error for the identifier that was asked for.
    fn from(event_template_uuid: Uuid) -> (r: EventTemplateNotFound) {
        EventTemplateNotFound { event_template_uuid }
    }
}

impl FromSpecImpl<Uuid> for TraceTemplateNotFound {
    open spec fn obeys_from_spec() -> bool {
        true
    }

    open spec fn from_spec(v: Uuid) -> TraceTemplateNotFound {
        TraceTemplateNotFound { trace_template_uuid: v }
    }
}

impl From<Uuid> for TraceTemplateNotFound {
    /// The error for the identifier that was asked for.
    fn from(trace_template_uuid: Uuid) -> (r: TraceTemplateNotFound) {
        TraceTemplateNotFound { trace_template_uuid }
    }
}

/// The outcome of a parser, by the views of what it returns.
pub open spec fn parsed<T: View>(outcome: Result<T, ParsingError>) -> Result<T::V, Seq<char>> {
    match outcome {
        Ok(value) => Ok(value@),
        Err(error) => Err(error@),
    }
}

/// The outcome of a parser of lists, by the views of the elements.
pub open spec fn parsed_list<T: View>(outcome: Result<Vec<T>, ParsingError>) -> Result<
    Seq<T::V>,
    Seq<char>,
> {
    match outcome {
        Ok(list) => Ok(crate::model::views(list@)),
        Err(error) => Err(error@),
    }
}

} // verus!
