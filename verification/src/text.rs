//! Numbers and file names typed as text, read by the standard library.

use vstd::prelude::*;

verus! {

/// What `str::parse::<u32>` reads from a text, or `None` where it rejects
/// the text.
pub uninterp spec fn decimal_u32(text: Seq<char>) -> Option<u32>;

/// What `str::parse::<usize>` reads from a text, or `None` where it rejects
/// the text.
pub uninterp spec fn decimal_usize(text: Seq<char>) -> Option<usize>;

/// The extension that `std::path::Path::extension` finds in a file name, or
/// `None` where it finds none.
pub uninterp spec fn path_extension(file_name: Seq<char>) -> Option<Seq<char>>;

/// Calls `std::path::Path::extension` on a file name.
///
/// Trusted: whether the name has an extension, and which, depend on the
/// name alone.
#[verifier::external_body]
pub(crate) fn extension_of(file_name: &str) -> (r: Option<String>)
    ensures
        path_extension(file_name@) == match r {
            Some(extension) => Some(extension@),
            None => None,
        },
{
    match std::path::Path::new(file_name).extension() {
        Some(extension) => Some(extension.to_string_lossy().into_owned()),
        None => None,
    }
}

/// A text as the standard library writes it for debugging: between double
/// quotes, with what cannot stand there escaped.
pub uninterp spec fn quoted_text(text: Seq<char>) -> Seq<char>;

/// Writes a text through its `Debug` with `format!`.
///
/// Trusted: what is written depends on the text alone.
#[verifier::external_body]
pub(crate) fn quote(text: &str) -> (r: String)
    ensures
        r@ == quoted_text(text@),
{
    format!("{:?}", text)
}

/// Calls `str::parse::<u32>`.
///
/// Trusted: whether the text is accepted, and the number read from it,
/// depend on the text alone.
#[verifier::external_body]
pub(crate) fn parse_u32(text: &str) -> (r: Option<u32>)
    ensures
        r == decimal_u32(text@),
{
    match text.parse::<u32>() {
        Ok(n) => Some(n),
        Err(_) => None,
    }
}

/// Calls `str::parse::<usize>`.
///
/// Trusted: whether the text is accepted, and the number read from it,
/// depend on the text alone.
#[verifier::external_body]
pub(crate) fn parse_usize(text: &str) -> (r: Option<usize>)
    ensures
        r == decimal_usize(text@),
{
    match text.parse::<usize>() {
        Ok(n) => Some(n),
        Err(_) => None,
    }
}

/// The value of a number field after a text was typed into it: nothing
/// typed clears the field, a number up to `max` replaces its value, and
/// anything else leaves it as it was.
pub open spec fn typed_number(text: Seq<char>, max: u32, current: u32) -> u32 {
    if text.len() == 0 {
        0
    } else {
        match decimal_u32(text) {
            Some(n) => if n <= max {
                n
            } else {
                current
            },
            None => current,
        }
    }
}

/// The value of a number field that holds `current` after `text` was typed
/// into it.
pub fn read_number(text: &str, max: u32, current: u32) -> (n: u32)
    ensures
        n == typed_number(text@, max, current),
{
    if text.is_empty() {
        0
    } else {
        match parse_u32(text) {
            Some(n) => if n <= max {
                n
            } else {
                current
            },
            None => current,
        }
    }
}

} // verus!
