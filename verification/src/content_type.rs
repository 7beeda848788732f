//! Content-type resolution for single-shot uploads: an explicit override
//! wins; otherwise the type is guessed conservatively from the target key's
//! extension, and an unknown extension yields none at all.

use vstd::prelude::*;

verus! {

/// The media type the extension table assigns to a name, if any. The
/// lookup is a fixed table on the name's extension, so the result is a
/// function of the name alone.
pub uninterp spec fn mime_of(name: Seq<char>) -> Option<Seq<char>>;

/// An optional string, abstracted to its characters.
pub open spec fn opt_str_view(o: Option<String>) -> Option<Seq<char>> {
    match o {
        Some(s) => Some(s@),
        None => None,
    }
}

/// Relies on mime_guess::from_path and MimeGuess::first: a pure lookup of
/// the name's extension in a static table; no extension or an unknown one
/// yields `None`.
#[verifier::external_body]
fn guess_mime(name: &str) -> (r: Option<String>)
    ensures
        opt_str_view(r) == mime_of(name@),
{
    mime_guess::from_path(name).first().map(|m| m.to_string())
}

/// The content type a single-shot upload carries: the explicit override
/// when one is given, else whatever the extension table says of the key —
/// possibly nothing, in which case no content-type header is sent.
pub fn resolve_content_type(content_type: Option<String>, key: &str) -> (r: Option<String>)
    ensures
        match content_type {
            Some(ct) => r == Some(ct),
            None => opt_str_view(r) == mime_of(key@),
        },
{
    match content_type {
        Some(ct) => Some(ct),
        None => guess_mime(key),
    }
}

} // verus!
