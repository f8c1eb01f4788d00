//! The media type of a file, guessed from its name's extension.

use vstd::prelude::*;

verus! {

/// The media type that `mime_guess` gives a path, from its extension alone.
pub uninterp spec fn mime_of(path: Seq<char>) -> Seq<char>;

/// Relies on `mime_guess::from_path` and `MimeGuess::first_or_octet_stream`:
/// the first media type known for the path's extension, or
/// `application/octet-stream` where none is known; it depends on the path
/// alone.
#[verifier::external_body]
pub(crate) fn guess_content_type(path: &str) -> (r: String)
    ensures
        r@ == mime_of(path@),
{
    mime_guess::from_path(path).first_or_octet_stream().essence_str().to_string()
}

} // verus!
