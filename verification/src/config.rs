//! Source-level configuration operations.
//!
//! Every operation works on a `ConfigSource`: what the configuration-root
//! collaborators yielded for this one call. An unresolvable root is a valid,
//! non-fatal state — reads report "unset", writes become no-ops — while a
//! root whose document could not be loaded propagates that error. Writes
//! return the full re-serialized document, to be persisted as a
//! whole-document overwrite.

use vstd::prelude::*;

use crate::codec::{entry_lookup, flag_key_ok, normalize_personality_spec, personality_of};
use crate::codec::{normalize_personality_value, read_flag, set_top_level_string, write_flag};
use crate::store::{doc_bools, doc_strings, doc_text, text_bools, text_strings, toml_accepts};
use crate::store::render_document;
use crate::text::{is_config_ws, lemma_trim_all_non_ws, lemma_trim_idempotent, lower_seq, trim_seq};
use crate::text::{region_eq_lower, trim_bounds};

verus! {

/// What the configuration-root collaborators yielded for one operation: no
/// root resolved at all, a root whose document could not be loaded, or the
/// loaded document.
pub enum ConfigSource {
    NoRoot,
    LoadFailed(String),
    Loaded(toml_edit::Document),
}

/// The outcome every flag read owes: `Ok(None)` without a root, the load
/// error verbatim, and otherwise exactly the document's entry at `key`.
pub open spec fn read_flag_outcome(
    source: ConfigSource,
    key: Seq<char>,
    r: Result<Option<bool>, String>,
) -> bool {
    match source {
        ConfigSource::NoRoot => r == Ok::<Option<bool>, String>(None::<bool>),
        ConfigSource::LoadFailed(e) => r matches Err(m) && m@ == e@,
        ConfigSource::Loaded(d) => r == Ok::<Option<bool>, String>(
            entry_lookup(doc_bools(d), key),
        ),
    }
}

/// The outcome every flag write owes. Without a root the write is a no-op;
/// a load error propagates verbatim; otherwise a valid key is set — every
/// other entry preserved — and the whole re-serialized document is returned
/// for persisting: well-formed text that parses back to exactly the mutated
/// entries. An invalid key fails with its validation message and leaves the
/// document untouched.
pub open spec fn write_flag_outcome(
    pre: ConfigSource,
    post: ConfigSource,
    key: Seq<char>,
    enabled: bool,
    r: Result<Option<String>, String>,
) -> bool {
    match pre {
        ConfigSource::NoRoot => post == pre && r == Ok::<Option<String>, String>(None::<String>),
        ConfigSource::LoadFailed(e) => post == pre && (r matches Err(m) && m@ == e@),
        ConfigSource::Loaded(d) => if flag_key_ok(key) {
            post matches ConfigSource::Loaded(d2) && doc_bools(d2) == doc_bools(d).insert(
                key,
                enabled,
            ) && doc_strings(d2) == doc_strings(d).remove(key) && (r matches Ok(o) && o matches Some(
                t,
            ) && t@ == doc_text(d2) && toml_accepts(t@) && text_bools(t@) == doc_bools(d2)
                && text_strings(t@) == doc_strings(d2))
        } else {
            post == pre && (r matches Err(m) && (if trim_seq(key).len() == 0 {
                m@ == "feature key is empty"@
            } else {
                m@ == "feature key `collab` is no longer supported; use `multi_agent`"@
            }))
        },
    }
}

/// The outcome a personality write owes: a recognizable value is stored in
/// canonical lowercase form, an unrecognized one skips the write silently,
/// and in both cases the document is re-serialized for persisting:
/// well-formed text that parses back to exactly the document's entries.
pub open spec fn write_personality_outcome(
    pre: ConfigSource,
    post: ConfigSource,
    raw: Seq<char>,
    r: Result<Option<String>, String>,
) -> bool {
    match pre {
        ConfigSource::NoRoot => post == pre && r == Ok::<Option<String>, String>(None::<String>),
        ConfigSource::LoadFailed(e) => post == pre && (r matches Err(m) && m@ == e@),
        ConfigSource::Loaded(d) => post matches ConfigSource::Loaded(d2) && (
        match normalize_personality_spec(raw) {
            Some(c) => doc_strings(d2) == doc_strings(d).insert("personality"@, c) && doc_bools(d2)
                == doc_bools(d).remove("personality"@),
            None => d2 == d,
        }) && (r matches Ok(o) && o matches Some(t) && t@ == doc_text(d2) && toml_accepts(t@)
            && text_bools(t@) == doc_bools(d2) && text_strings(t@) == doc_strings(d2)),
    }
}

/// Reads one boolean feature flag from the configuration source.
pub fn read_feature_flag(source: &ConfigSource, key: &str) -> (r: Result<Option<bool>, String>)
    ensures
        read_flag_outcome(*source, key@, r),
{
    match source {
        ConfigSource::NoRoot => Ok(None),
        ConfigSource::LoadFailed(e) => Err(e.clone()),
        ConfigSource::Loaded(d) => Ok(read_flag(d, key)),
    }
}

/// Writes one boolean feature flag and returns the document to persist.
pub fn write_feature_flag(source: &mut ConfigSource, key: &str, enabled: bool) -> (r: Result<
    Option<String>,
    String,
>)
    ensures
        write_flag_outcome(*old(source), *final(source), key@, enabled, r),
{
    match source {
        ConfigSource::NoRoot => Ok(None),
        ConfigSource::LoadFailed(e) => Err(e.clone()),
        ConfigSource::Loaded(d) => match write_flag(d, key, enabled) {
            Ok(()) => Ok(Some(render_document(d))),
            Err(m) => Err(m),
        },
    }
}

/// Validates a caller-supplied feature key — empty and deprecated keys are
/// hard failures — then writes the trimmed key.
pub fn write_feature_enabled(source: &mut ConfigSource, feature_key: &str, enabled: bool) -> (r:
    Result<Option<String>, String>)
    ensures
        trim_seq(feature_key@).len() == 0 ==> (*final(source) == *old(source) && (r matches Err(m)
            && m@ == "feature key is empty"@)),
        (trim_seq(feature_key@).len() > 0 && lower_seq(trim_seq(feature_key@)) == "collab"@) ==> (
        *final(source) == *old(source) && (r matches Err(m) && m@
            == "feature key `collab` is no longer supported; use `multi_agent`"@)),
        flag_key_ok(feature_key@) ==> write_flag_outcome(
            *old(source),
            *final(source),
            trim_seq(feature_key@),
            enabled,
            r,
        ),
{
    let (lo, hi) = trim_bounds(feature_key);
    if hi - lo == 0 {
        return Err(String::from_str("feature key is empty"));
    }
    if region_eq_lower(feature_key, lo, hi, "collab") {
        return Err(String::from_str("feature key `collab` is no longer supported; use `multi_agent`"));
    }
    let trimmed = feature_key.substring_char(lo, hi);
    proof {
        lemma_trim_idempotent(feature_key@);
    }
    write_feature_flag(source, trimmed, enabled)
}

/// Reads the personality setting: normalized, `None` when absent or not a
/// member of the closed set.
pub fn read_personality(source: &ConfigSource) -> (r: Result<Option<String>, String>)
    ensures
        *source is NoRoot ==> r == Ok::<Option<String>, String>(None::<String>),
        *source matches ConfigSource::LoadFailed(e) ==> (r matches Err(m) && m@ == e@),
        *source matches ConfigSource::Loaded(d) ==> (r matches Ok(o) && (match o {
            Some(s) => personality_of(doc_strings(d)) == Some(s@),
            None => personality_of(doc_strings(d)) is None,
        })),
{
    match source {
        ConfigSource::NoRoot => Ok(None),
        ConfigSource::LoadFailed(e) => Err(e.clone()),
        ConfigSource::Loaded(d) => Ok(crate::codec::read_personality_from_document(d)),
    }
}

/// Writes the personality setting and returns the document to persist; an
/// unrecognized value skips the write but still persists the document.
pub fn write_personality(source: &mut ConfigSource, personality: &str) -> (r: Result<
    Option<String>,
    String,
>)
    ensures
        write_personality_outcome(*old(source), *final(source), personality@, r),
{
    match source {
        ConfigSource::NoRoot => Ok(None),
        ConfigSource::LoadFailed(e) => Err(e.clone()),
        ConfigSource::Loaded(d) => {
            let normalized = normalize_personality_value(personality);
            set_top_level_string(d, "personality", normalized);
            Ok(Some(render_document(d)))
        },
    }
}

/// Reads the configured model name. Unlike the flag reads, this operation
/// requires a configuration root: its absence is an error.
pub fn read_config_model(source: &ConfigSource) -> (r: Result<Option<String>, String>)
    ensures
        *source is NoRoot ==> (r matches Err(m) && m@ == "Unable to resolve CODEX_HOME"@),
        *source matches ConfigSource::LoadFailed(e) ==> (r matches Err(m) && m@ == e@),
        *source matches ConfigSource::Loaded(d) ==> (r matches Ok(o) && (match o {
            Some(s) => entry_lookup(doc_strings(d), "model"@) == Some(s@),
            None => entry_lookup(doc_strings(d), "model"@) is None,
        })),
{
    match source {
        ConfigSource::NoRoot => Err(String::from_str("Unable to resolve CODEX_HOME")),
        ConfigSource::LoadFailed(e) => Err(e.clone()),
        ConfigSource::Loaded(d) => Ok(crate::codec::read_top_level_string(d, "model")),
    }
}

/// The path of the configuration document under a resolved root.
pub fn config_toml_path(home: Option<&str>) -> (r: Option<String>)
    ensures
        home matches Some(h) ==> (r matches Some(p) && p@ == h@ + "/config.toml"@),
        home is None ==> r is None,
{
    match home {
        Some(h) => Some(String::from_str(h).concat("/config.toml")),
        None => None,
    }
}

/// Reads the `steer` feature flag.
pub fn read_steer_enabled(source: &ConfigSource) -> (r: Result<Option<bool>, String>)
    ensures
        read_flag_outcome(*source, "steer"@, r),
{
    read_feature_flag(source, "steer")
}

/// Reads the `collaboration_modes` feature flag.
pub fn read_collaboration_modes_enabled(source: &ConfigSource) -> (r: Result<Option<bool>, String>)
    ensures
        read_flag_outcome(*source, "collaboration_modes"@, r),
{
    read_feature_flag(source, "collaboration_modes")
}

/// Reads the `unified_exec` feature flag.
pub fn read_unified_exec_enabled(source: &ConfigSource) -> (r: Result<Option<bool>, String>)
    ensures
        read_flag_outcome(*source, "unified_exec"@, r),
{
    read_feature_flag(source, "unified_exec")
}

/// Reads the `apps` feature flag.
pub fn read_apps_enabled(source: &ConfigSource) -> (r: Result<Option<bool>, String>)
    ensures
        read_flag_outcome(*source, "apps"@, r),
{
    read_feature_flag(source, "apps")
}

/// Writes the `steer` feature flag.
pub fn write_steer_enabled(source: &mut ConfigSource, enabled: bool) -> (r: Result<
    Option<String>,
    String,
>)
    ensures
        write_flag_outcome(*old(source), *final(source), "steer"@, enabled, r),
{
    write_feature_flag(source, "steer", enabled)
}

/// Writes the `collaboration_modes` feature flag.
pub fn write_collaboration_modes_enabled(source: &mut ConfigSource, enabled: bool) -> (r: Result<
    Option<String>,
    String,
>)
    ensures
        write_flag_outcome(*old(source), *final(source), "collaboration_modes"@, enabled, r),
{
    write_feature_flag(source, "collaboration_modes", enabled)
}

/// Writes the `unified_exec` feature flag.
pub fn write_unified_exec_enabled(source: &mut ConfigSource, enabled: bool) -> (r: Result<
    Option<String>,
    String,
>)
    ensures
        write_flag_outcome(*old(source), *final(source), "unified_exec"@, enabled, r),
{
    write_feature_flag(source, "unified_exec", enabled)
}

/// Writes the `apps` feature flag.
pub fn write_apps_enabled(source: &mut ConfigSource, enabled: bool) -> (r: Result<
    Option<String>,
    String,
>)
    ensures
        write_flag_outcome(*old(source), *final(source), "apps"@, enabled, r),
{
    write_feature_flag(source, "apps", enabled)
}

/// Law: the built-in feature-flag keys pass write validation.
pub proof fn lemma_builtin_keys_ok()
    ensures
        flag_key_ok("steer"@),
        flag_key_ok("collaboration_modes"@),
        flag_key_ok("unified_exec"@),
        flag_key_ok("apps"@),
{
    reveal_strlit("steer");
    reveal_strlit("collaboration_modes");
    reveal_strlit("unified_exec");
    reveal_strlit("apps");
    reveal_strlit("collab");
    lemma_plain_key_ok("steer"@);
    lemma_plain_key_ok("collaboration_modes"@);
    lemma_plain_key_ok("unified_exec"@);
    lemma_plain_key_ok("apps"@);
}

/// A non-empty key without whitespace, of a length other than that of
/// `collab`, passes write validation.
proof fn lemma_plain_key_ok(key: Seq<char>)
    requires
        key.len() > 0,
        forall|i: int| 0 <= i < key.len() ==> !is_config_ws(key[i]),
        key.len() != "collab"@.len(),
    ensures
        flag_key_ok(key),
{
    lemma_trim_all_non_ws(key);
    assert(lower_seq(trim_seq(key)).len() == key.len());
}

} // verus!
