//! URL parsing and joining, delegated to the `url` crate (through `lsp_types`).
use vstd::prelude::*;

verus! {

/// What `Url::parse` gives for a text: the URL's serialization, or the
/// error's message.
pub uninterp spec fn url_parse_of(text: Seq<char>) -> Result<Seq<char>, Seq<char>>;

/// What `Url::join` gives for a base URL and a reference: the serialization
/// of the joined URL, or the error's message.
pub uninterp spec fn url_join_of(base: Seq<char>, reference: Seq<char>) -> Result<
    Seq<char>,
    Seq<char>,
>;

pub open spec fn text_result(r: Result<String, String>) -> Result<Seq<char>, Seq<char>> {
    match r {
        Ok(s) => Ok(s@),
        Err(e) => Err(e@),
    }
}

/// Relies on `url::Url::parse`: reads `text` as an absolute URL and returns its
/// serialization, or the text of the parse error. The outcome depends on
/// `text` alone.
#[verifier::external_body]
pub(crate) fn parse_url(text: &str) -> (r: Result<String, String>)
    ensures
        text_result(r) == url_parse_of(text@),
{
    lsp_types::Url::parse(text).map(String::from).map_err(|e| e.to_string())
}

/// Relies on `url::Url::join`: resolves `reference` against `base` (the
/// serialization of a URL, read back with `Url::parse`) and returns the
/// joined URL's serialization, or the text of the error. The outcome depends
/// on the two texts alone.
#[verifier::external_body]
pub(crate) fn join_url(base: &str, reference: &str) -> (r: Result<String, String>)
    ensures
        text_result(r) == url_join_of(base@, reference@),
{
    lsp_types::Url::parse(base).and_then(|u| u.join(reference)).map(String::from).map_err(
        |e| e.to_string(),
    )
}

} // verus!
