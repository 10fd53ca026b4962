//! Identifiers of templates, traces, events and projects.

use vstd::prelude::*;
use crate::text::message_view;

verus! {

/// A 128-bit identifier, held as the integer that its sixteen bytes spell in
/// big-endian order.
pub type Uuid = u128;

/// What `uuid::Uuid::parse_str` makes of a text: the identifier, or the
/// message of the error it reports.
pub uninterp spec fn uuid_parsed(text: Seq<char>) -> Result<u128, Seq<char>>;

/// The bits that mark an identifier as random (version 4, RFC variant).
pub open spec fn is_random_uuid(id: u128) -> bool {
    id & 0x0000_0000_0000_f000_c000_0000_0000_0000u128
        == 0x0000_0000_0000_4000_8000_0000_0000_0000u128
}

/// Calls `uuid::Uuid::new_v4` and hands the identifier out as an integer.
///
/// Trusted: the identifier is drawn at random, so nothing is claimed of it but
/// the version and variant bits that `new_v4` sets. `new_v4` panics only when
/// the operating system yields no random bytes.
#[verifier::external_body]
pub(crate) fn fresh_uuid() -> (id: Uuid)
    ensures
        is_random_uuid(id),
{
    uuid::Uuid::new_v4().as_u128()
}

/// Calls `uuid::Uuid::parse_str`.
///
/// Trusted: the outcome is a function of the text alone, named
/// [`uuid_parsed`]; an error is handed out as the text of its `Display`.
#[verifier::external_body]
pub(crate) fn parse_uuid_text(text: &str) -> (r: Result<Uuid, String>)
    ensures
        message_view(r) == uuid_parsed(text@),
{
    match uuid::Uuid::parse_str(text) {
        Ok(id) => Ok(id.as_u128()),
        Err(e) => Err(e.to_string()),
    }
}

} // verus!
