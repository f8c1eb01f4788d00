//! The viewer bundle: its static files and its configuration type, both
//! from the `swagger_ui` crate, and the JSON form of that configuration.

use vstd::prelude::*;

verus! {

/// The viewer's configuration, carried through as it was given.
#[verifier::external_type_specification]
#[verifier::external_body]
pub struct ExConfig(swagger_ui::Config);

/// Why a value could not be written as JSON.
#[verifier::external_type_specification]
#[verifier::external_body]
pub struct ExJsonError(serde_json::Error);

/// Relies on `swagger_ui::Assets::iter`: the relative paths of the bundled
/// viewer files. Debug builds list a directory on disk, so nothing is
/// promised of them.
#[verifier::external_body]
pub(crate) fn asset_paths() -> (r: Vec<String>) {
    swagger_ui::Assets::iter().map(|p| p.into_owned()).collect()
}

/// Relies on `swagger_ui::Assets::get`: the content of the bundled file at a
/// relative path, if there is one. Debug builds read it from disk, so
/// nothing is promised of it.
#[verifier::external_body]
pub(crate) fn asset_content(path: &str) -> (r: Option<Vec<u8>>) {
    swagger_ui::Assets::get(path).map(|c| c.into_owned())
}

/// Whether JSON writes each character of `s` as itself inside a string:
/// none is a quote, a backslash or a control character below U+0020.
pub open spec fn json_plain(s: Seq<char>) -> bool {
    forall|i: int| 0 <= i < s.len() ==> s[i] != '"' && s[i] != '\\' && (s[i] as u32) >= 0x20
}

/// Whether `needle` stands somewhere in `text`.
pub open spec fn contains_text(text: Seq<char>, needle: Seq<char>) -> bool {
    exists|k: int|
        0 <= k && k + needle.len() <= text.len() && #[trigger] text.subrange(k, k + needle.len())
            == needle
}

/// The JSON member that gives the viewer the specification's URL.
pub open spec fn url_member(url: Seq<char>) -> Seq<char> {
    seq!['"', 'u', 'r', 'l', '"', ':', '"'] + url + seq!['"']
}

/// Relies on `serde_json::to_string` over `swagger_ui::Config`: the
/// configuration, with its `url` field set to `url`, as compact JSON. The
/// field is written first, under the name `url`, since it is not empty.
/// Writing never fails: the derived serializer of `Config` meets only
/// strings, booleans, integers and enums, and the text goes into memory.
#[verifier::external_body]
pub(crate) fn config_json(config: &swagger_ui::Config, url: String) -> (r: Result<
    String,
    serde_json::Error,
>)
    ensures
        r is Ok,
        url@.len() > 0 && json_plain(url@) ==> contains_text(r->Ok_0@, url_member(url@)),
{
    let mut config = config.clone();
    config.url = url;
    serde_json::to_string(&config)
}

} // verus!
