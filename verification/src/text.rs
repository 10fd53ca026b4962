//! Text helpers shared by the parsers and the error messages.

use vstd::prelude::*;
use vstd::string::*;

verus! {

/// What `str::to_lowercase` returns: the lowercase equivalent of `text` as
/// Unicode defines it.
pub uninterp spec fn str_lowercased(text: Seq<char>) -> Seq<char>;

/// `text` with every `from` turned into `to`, and every other character as
/// it is.
pub open spec fn each_replaced(text: Seq<char>, from: char, to: char) -> Seq<char> {
    text.map_values(|c: char| if c == from { to } else { c })
}

/// Calls `str::replace`, with a pattern and a replacement of one character
/// each.
///
/// Trusted: `str::replace` replaces every match of the pattern. The matches
/// of a pattern of one character are the places where that character
/// stands, so the result is the text with each of them turned into the one
/// character of the replacement.
#[verifier::external_body]
pub(crate) fn replace_all(text: &str, from: &str, to: &str) -> (r: String)
    requires
        from@.len() == 1,
        to@.len() == 1,
    ensures
        r@ == each_replaced(text@, from@[0], to@[0]),
{
    text.replace(from, to)
}

/// Calls `str::to_lowercase`.
///
/// Trusted: the result is a function of the text alone, named
/// [`str_lowercased`].
#[verifier::external_body]
pub(crate) fn lowercase(text: &str) -> (r: String)
    ensures
        r@ == str_lowercased(text@),
{
    text.to_lowercase()
}

/// An outcome whose error is a message, with the message by its view.
pub open spec fn message_view<T>(outcome: Result<T, String>) -> Result<T, Seq<char>> {
    match outcome {
        Ok(value) => Ok(value),
        Err(message) => Err(message@),
    }
}

/// `a` followed by `b`.
pub fn join2(a: &str, b: &str) -> (r: String)
    ensures
        r@ == a@ + b@,
{
    let mut out = String::from_str(a);
    out.append(b);
    out
}

/// `a`, `b` and `c` in a row.
pub fn join3(a: &str, b: &str, c: &str) -> (r: String)
    ensures
        r@ == a@ + b@ + c@,
{
    let mut out = String::from_str(a);
    out.append(b);
    out.append(c);
    out
}

/// Whether two texts hold the same characters.
pub fn same_text(a: &str, b: &str) -> (r: bool)
    ensures
        r == (a@ == b@),
{
    let x = String::from_str(a);
    let y = String::from_str(b);
    x == y
}

} // verus!
