//! Document store: parsing and serializing the configuration document.
//!
//! The document itself is a `toml_edit::Document`, kept opaque here. What
//! the codec observes of it is given names: its top-level boolean entries,
//! its top-level string entries, the text it serializes to, which texts
//! parse at all, and which entries a given text parses to. The handful of
//! functions that actually touch `toml_edit` are the trusted items of this
//! crate; everything else is proved against their contracts.

use vstd::prelude::*;

verus! {

#[verifier::external_type_specification]
#[verifier::external_body]
pub struct ExDocument(toml_edit::Document);

/// The top-level entries of the document whose value is a boolean.
pub uninterp spec fn doc_bools(document: toml_edit::Document) -> Map<Seq<char>, bool>;

/// The top-level entries of the document whose value is a string.
pub uninterp spec fn doc_strings(document: toml_edit::Document) -> Map<Seq<char>, Seq<char>>;

/// The text the document serializes to.
pub uninterp spec fn doc_text(document: toml_edit::Document) -> Seq<char>;

/// Whether `text` is a well-formed configuration document.
pub uninterp spec fn toml_accepts(text: Seq<char>) -> bool;

/// The top-level boolean entries of the document that `text` parses to.
pub uninterp spec fn text_bools(text: Seq<char>) -> Map<Seq<char>, bool>;

/// The top-level string entries of the document that `text` parses to.
pub uninterp spec fn text_strings(text: Seq<char>) -> Map<Seq<char>, Seq<char>>;

/// Relies on `str::parse::<toml_edit::Document>`: acceptance defines which
/// texts are well-formed, and the parsed document's top-level boolean and
/// string entries are a function of the text alone.
#[verifier::external_body]
pub(crate) fn parse_doc(text: &str) -> (r: Result<toml_edit::Document, String>)
    ensures
        r is Ok <==> toml_accepts(text@),
        r matches Ok(d) ==> doc_bools(d) == text_bools(text@),
        r matches Ok(d) ==> doc_strings(d) == text_strings(text@),
{
    match text.parse::<toml_edit::Document>() {
        Ok(d) => Ok(d),
        Err(e) => Err(e.to_string()),
    }
}

/// Relies on `toml_edit::Document`'s `Display` implementation: serializes
/// the whole document, keeping unrelated entries, and emits well-formed
/// text that parses back to the same top-level entries. Formatting details
/// (a missing final newline, CRLF line endings, interleaved dotted keys)
/// may be normalized, so the text is faithful to the document's content but
/// not always byte-exact to the text the document was parsed from.
#[verifier::external_body]
pub(crate) fn render_doc(document: &toml_edit::Document) -> (r: String)
    ensures
        r@ == doc_text(*document),
        toml_accepts(r@),
        text_bools(r@) == doc_bools(*document),
        text_strings(r@) == doc_strings(*document),
{
    document.to_string()
}

/// Relies on `toml_edit::Table::get` and `toml_edit::Item::as_bool`: the
/// top-level entry at `key`, if present and boolean, else `None`.
#[verifier::external_body]
pub(crate) fn doc_get_bool(document: &toml_edit::Document, key: &str) -> (r: Option<bool>)
    ensures
        doc_bools(*document).contains_key(key@) ==> r == Some(doc_bools(*document)[key@]),
        !doc_bools(*document).contains_key(key@) ==> r is None,
{
    document.get(key).and_then(toml_edit::Item::as_bool)
}

/// Relies on `toml_edit::Table::get` and `toml_edit::Item::as_str`: the
/// top-level entry at `key`, if present and a string, else `None`.
#[verifier::external_body]
pub(crate) fn doc_get_string(document: &toml_edit::Document, key: &str) -> (r: Option<String>)
    ensures
        r matches Some(s) ==> doc_strings(*document).contains_key(key@) && s@ == doc_strings(*document)[key@],
        r is None ==> !doc_strings(*document).contains_key(key@),
{
    match document.get(key).and_then(toml_edit::Item::as_str) {
        Some(s) => Some(s.to_owned()),
        None => None,
    }
}

/// Relies on `toml_edit::Table::insert` with `toml_edit::value`: sets the
/// top-level entry at `key` to the boolean `v`, leaving every other entry in
/// place, and keeps the document well-formed.
#[verifier::external_body]
pub(crate) fn doc_set_bool(document: &mut toml_edit::Document, key: &str, v: bool)
    ensures
        doc_bools(*final(document)) == doc_bools(*old(document)).insert(key@, v),
        doc_strings(*final(document)) == doc_strings(*old(document)).remove(key@),
        toml_accepts(doc_text(*final(document))),
{
    document.insert(key, toml_edit::value(v));
}

/// Relies on `toml_edit::Table::insert` with `toml_edit::value`: sets the
/// top-level entry at `key` to the string `v`, leaving every other entry in
/// place, and keeps the document well-formed.
#[verifier::external_body]
pub(crate) fn doc_set_string(document: &mut toml_edit::Document, key: &str, v: &str)
    ensures
        doc_strings(*final(document)) == doc_strings(*old(document)).insert(key@, v@),
        doc_bools(*final(document)) == doc_bools(*old(document)).remove(key@),
        toml_accepts(doc_text(*final(document))),
{
    document.insert(key, toml_edit::value(v));
}

/// Parses the configuration document; the error is the parser's message.
pub fn parse_document(text: &str) -> (r: Result<toml_edit::Document, String>)
    ensures
        r is Ok <==> toml_accepts(text@),
        r matches Ok(d) ==> doc_bools(d) == text_bools(text@),
        r matches Ok(d) ==> doc_strings(d) == text_strings(text@),
{
    parse_doc(text)
}

/// Serializes the document for persisting as a whole-document overwrite.
pub fn render_document(document: &toml_edit::Document) -> (r: String)
    ensures
        r@ == doc_text(*document),
        toml_accepts(r@),
        text_bools(r@) == doc_bools(*document),
        text_strings(r@) == doc_strings(*document),
{
    render_doc(document)
}

/// Round-trip law: a well-formed document that is loaded and persisted with
/// no mutation keeps its semantic content — the top-level boolean and
/// string entries of the persisted text are those of the original.
/// Ordering and comments are kept by the underlying format-preserving
/// serializer where its format supports it; that part is not stated here.
pub fn reserialize_document(text: &str) -> (r: Result<String, String>)
    ensures
        r is Ok <==> toml_accepts(text@),
        r matches Ok(t) ==> toml_accepts(t@),
        r matches Ok(t) ==> text_bools(t@) == text_bools(text@),
        r matches Ok(t) ==> text_strings(t@) == text_strings(text@),
{
    match parse_document(text) {
        Ok(d) => Ok(render_document(&d)),
        Err(e) => Err(e),
    }
}

} // verus!
