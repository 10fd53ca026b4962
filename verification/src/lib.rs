//! A journal of traces and of the events recorded against them.
//!
//! Templates declare the shape of events and the transitions that a trace
//! allows between them. A template becomes an editable draft, a finished
//! draft becomes a persisted record, and records are shown through
//! denormalised views that also suggest the next step of a trace.

pub mod builders;
pub mod clock;
pub mod definition;
pub mod errors;
pub mod events;
pub mod fs_service;
pub mod ident;
pub mod import;
pub mod json;
pub mod laws;
pub mod model;
pub mod project;
pub mod service;
pub mod store;
pub mod text;
pub mod views;
