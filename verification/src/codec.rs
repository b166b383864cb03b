//! Flag & setting codec: typed access to a loaded configuration document.
//!
//! Boolean feature flags are read and written by caller-supplied keys, with
//! the deprecated key `collab` and empty keys rejected at the write boundary.
//! The personality setting is a string constrained to a closed set; it is
//! normalized (trimmed, ASCII-lowercased) on both read and write.

use vstd::prelude::*;

use crate::store::{doc_bools, doc_strings, doc_text, toml_accepts};
use crate::store::{doc_get_bool, doc_get_string, doc_set_bool, doc_set_string};
use crate::text::{is_ascii_upper, is_config_ws, lower_seq, trim_seq};
use crate::text::{lemma_lower_all_non_upper, lemma_lower_seq_idempotent, lemma_trim_all_non_ws,
    lemma_trim_lower_commute};
use crate::text::{region_eq_lower, trim_bounds};

verus! {

/// The outcome of looking a key up in one of the document's typed views:
/// the stored value when the key is present, `None` when it is absent.
pub open spec fn entry_lookup<V>(entries: Map<Seq<char>, V>, key: Seq<char>) -> Option<V> {
    if entries.contains_key(key) {
        Some(entries[key])
    } else {
        None
    }
}

/// A feature-flag key may be written when it is non-empty after trimming and
/// is not the deprecated key `collab`, compared case-insensitively.
pub open spec fn flag_key_ok(key: Seq<char>) -> bool {
    trim_seq(key).len() > 0 && lower_seq(trim_seq(key)) != "collab"@
}

/// Normalization of a personality value: trimmed and ASCII-lowercased, it
/// must be one of the canonical members `friendly` or `pragmatic`.
pub open spec fn normalize_personality_spec(raw: Seq<char>) -> Option<Seq<char>> {
    let t = lower_seq(trim_seq(raw));
    if t == "friendly"@ {
        Some("friendly"@)
    } else if t == "pragmatic"@ {
        Some("pragmatic"@)
    } else {
        None
    }
}

/// The personality setting a document's string entries denote: the entry at
/// `personality`, normalized; absent or unrecognized values denote `None`.
pub open spec fn personality_of(strings: Map<Seq<char>, Seq<char>>) -> Option<Seq<char>> {
    match entry_lookup(strings, "personality"@) {
        Some(raw) => normalize_personality_spec(raw),
        None => None,
    }
}

/// Reads a boolean feature flag: `None` when the key is absent or the entry
/// is not boolean. Never fails.
pub fn read_flag(document: &toml_edit::Document, key: &str) -> (r: Option<bool>)
    ensures
        r == entry_lookup(doc_bools(*document), key@),
{
    doc_get_bool(document, key)
}

/// Writes a boolean feature flag after validating the key: empty keys and
/// the deprecated key `collab` (any casing) are rejected, every other entry
/// of the document is preserved.
pub fn write_flag(document: &mut toml_edit::Document, key: &str, value: bool) -> (r: Result<
    (),
    String,
>)
    ensures
        r is Ok <==> flag_key_ok(key@),
        r is Ok ==> doc_bools(*final(document)) == doc_bools(*old(document)).insert(key@, value),
        r is Ok ==> doc_strings(*final(document)) == doc_strings(*old(document)).remove(key@),
        r is Ok ==> toml_accepts(doc_text(*final(document))),
        r is Err ==> *final(document) == *old(document),
        trim_seq(key@).len() == 0 ==> (r matches Err(m) && m@ == "feature key is empty"@),
        (trim_seq(key@).len() > 0 && lower_seq(trim_seq(key@)) == "collab"@) ==> (r matches Err(m)
            && m@ == "feature key `collab` is no longer supported; use `multi_agent`"@),
{
    let (lo, hi) = trim_bounds(key);
    if hi - lo == 0 {
        return Err(String::from_str("feature key is empty"));
    }
    if region_eq_lower(key, lo, hi, "collab") {
        return Err(String::from_str("feature key `collab` is no longer supported; use `multi_agent`"));
    }
    doc_set_bool(document, key, value);
    Ok(())
}

/// Normalizes a raw personality value to its canonical lowercase form, or
/// `None` when it is not a member of the closed set.
pub fn normalize_personality_value(value: &str) -> (r: Option<&'static str>)
    ensures
        r matches Some(s) ==> normalize_personality_spec(value@) == Some(s@),
        r is None ==> normalize_personality_spec(value@) is None,
{
    let (lo, hi) = trim_bounds(value);
    if region_eq_lower(value, lo, hi, "friendly") {
        Some("friendly")
    } else if region_eq_lower(value, lo, hi, "pragmatic") {
        Some("pragmatic")
    } else {
        None
    }
}

/// Reads the personality setting of a document: the raw string entry at
/// `personality`, normalized; `None` on absence or non-membership.
pub fn read_personality_from_document(document: &toml_edit::Document) -> (r: Option<String>)
    ensures
        r matches Some(s) ==> personality_of(doc_strings(*document)) == Some(s@),
        r is None ==> personality_of(doc_strings(*document)) is None,
{
    match doc_get_string(document, "personality") {
        Some(raw) => match normalize_personality_value(raw.as_str()) {
            Some(v) => Some(v.to_owned()),
            None => None,
        },
        None => None,
    }
}

/// Reads a top-level string entry as stored, without normalization.
pub fn read_top_level_string(document: &toml_edit::Document, key: &str) -> (r: Option<String>)
    ensures
        r matches Some(s) ==> entry_lookup(doc_strings(*document), key@) == Some(s@),
        r is None ==> entry_lookup(doc_strings(*document), key@) is None,
{
    doc_get_string(document, key)
}

/// Sets a top-level string entry; a `None` value skips the write and leaves
/// the document untouched.
pub fn set_top_level_string(document: &mut toml_edit::Document, key: &str, value: Option<&str>)
    ensures
        value matches Some(v) ==> doc_strings(*final(document)) == doc_strings(*old(document)).insert(key@, v@),
        value matches Some(v) ==> doc_bools(*final(document)) == doc_bools(*old(document)).remove(key@),
        value is Some ==> toml_accepts(doc_text(*final(document))),
        value is None ==> *final(document) == *old(document),
{
    match value {
        Some(v) => doc_set_string(document, key, v),
        None => (),
    }
}

/// Law: writing a flag and then reading the same key yields the written
/// value, and reading any other key is unaffected by the write.
pub proof fn lemma_flag_write_then_read(
    bools: Map<Seq<char>, bool>,
    key: Seq<char>,
    value: bool,
    other: Seq<char>,
)
    ensures
        entry_lookup(bools.insert(key, value), key) == Some(value),
        other != key ==> entry_lookup(bools.insert(key, value), other) == entry_lookup(
            bools,
            other,
        ),
{
}

/// Law: an empty key and the deprecated key `collab` — in any casing, with
/// any surrounding whitespace — are never writable.
pub proof fn lemma_invalid_flag_keys(key: Seq<char>)
    ensures
        trim_seq(key).len() == 0 ==> !flag_key_ok(key),
        lower_seq(trim_seq(key)) == "collab"@ ==> !flag_key_ok(key),
{
}

/// Law: normalization is case-insensitive — inputs that agree up to ASCII
/// case normalize to the same outcome.
pub proof fn lemma_normalize_case_insensitive(a: Seq<char>, b: Seq<char>)
    requires
        lower_seq(a) == lower_seq(b),
    ensures
        normalize_personality_spec(a) == normalize_personality_spec(b),
{
    lemma_trim_lower_commute(a);
    lemma_trim_lower_commute(b);
    lemma_lower_seq_idempotent(trim_seq(a));
    lemma_lower_seq_idempotent(trim_seq(b));
    assert(lower_seq(trim_seq(a)) == lower_seq(trim_seq(lower_seq(a))));
    assert(lower_seq(trim_seq(b)) == lower_seq(trim_seq(lower_seq(b))));
}

/// Law: normalization is idempotent — a canonical personality value
/// normalizes to itself.
pub proof fn lemma_normalize_idempotent(raw: Seq<char>, canonical: Seq<char>)
    requires
        normalize_personality_spec(raw) == Some(canonical),
    ensures
        normalize_personality_spec(canonical) == Some(canonical),
{
    reveal_strlit("friendly");
    reveal_strlit("pragmatic");
    lemma_canonical_fixed("friendly"@);
    lemma_canonical_fixed("pragmatic"@);
}

/// A canonical member value is already trimmed and lowercased.
proof fn lemma_canonical_fixed(s: Seq<char>)
    requires
        forall|i: int| 0 <= i < s.len() ==> !is_config_ws(s[i]),
        forall|i: int| 0 <= i < s.len() ==> !is_ascii_upper(s[i]),
    ensures
        lower_seq(trim_seq(s)) == s,
{
    lemma_trim_all_non_ws(s);
    lemma_lower_all_non_upper(s);
}

} // verus!
