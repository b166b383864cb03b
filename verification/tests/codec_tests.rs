use codex_config::codec::{normalize_personality_value, read_flag, read_personality_from_document,
    write_flag};
use codex_config::store::parse_document;

#[test]
fn parse_personality_reads_supported_values() {
    let friendly = parse_document("personality = \"friendly\"\n").expect("parse");
    let pragmatic = parse_document("personality = \"pragmatic\"\n").expect("parse");
    let unknown = parse_document("personality = \"unknown\"\n").expect("parse");

    assert_eq!(
        read_personality_from_document(&friendly),
        Some("friendly".to_string())
    );
    assert_eq!(
        read_personality_from_document(&pragmatic),
        Some("pragmatic".to_string())
    );
    assert_eq!(read_personality_from_document(&unknown), None);
}

#[test]
fn normalize_personality_is_case_insensitive() {
    assert_eq!(normalize_personality_value("Friendly"), Some("friendly"));
    assert_eq!(normalize_personality_value("PRAGMATIC"), Some("pragmatic"));
    assert_eq!(normalize_personality_value("unknown"), None);
}

#[test]
fn normalize_personality_trims_and_is_idempotent() {
    assert_eq!(normalize_personality_value("  FRIENDLY\t"), Some("friendly"));
    assert_eq!(normalize_personality_value("friendly"), Some("friendly"));
    assert_eq!(normalize_personality_value(" pragmatic \n"), Some("pragmatic"));
    assert_eq!(normalize_personality_value(""), None);
    assert_eq!(normalize_personality_value("   "), None);
}

#[test]
fn personality_value_is_normalized_on_read() {
    let padded = parse_document("personality = \" Pragmatic \"\n").expect("parse");
    assert_eq!(
        read_personality_from_document(&padded),
        Some("pragmatic".to_string())
    );
    let missing = parse_document("model = \"o3\"\n").expect("parse");
    assert_eq!(read_personality_from_document(&missing), None);
}

#[test]
fn write_then_read_flag_round_trips() {
    let mut doc = parse_document("a = 1\n").expect("parse");
    assert_eq!(write_flag(&mut doc, "steer", true), Ok(()));
    assert_eq!(read_flag(&doc, "steer"), Some(true));
    assert_eq!(write_flag(&mut doc, "steer", false), Ok(()));
    assert_eq!(read_flag(&doc, "steer"), Some(false));
}

#[test]
fn read_flag_distinguishes_absent_and_non_boolean() {
    let doc = parse_document("a = 1\nname = \"x\"\non = true\n").expect("parse");
    assert_eq!(read_flag(&doc, "missing"), None);
    assert_eq!(read_flag(&doc, "a"), None);
    assert_eq!(read_flag(&doc, "name"), None);
    assert_eq!(read_flag(&doc, "on"), Some(true));
}

#[test]
fn write_flag_rejects_empty_keys() {
    let mut doc = parse_document("a = 1\n").expect("parse");
    assert_eq!(
        write_flag(&mut doc, "", true),
        Err("feature key is empty".to_string())
    );
    assert_eq!(
        write_flag(&mut doc, "  \t", false),
        Err("feature key is empty".to_string())
    );
}

#[test]
fn unicode_whitespace_is_trimmed_like_ascii_whitespace() {
    assert_eq!(
        normalize_personality_value("\u{A0}friendly\u{2003}"),
        Some("friendly")
    );
    assert_eq!(normalize_personality_value("\u{3000}\u{85}"), None);

    let mut doc = parse_document("a = 1\n").expect("parse");
    assert_eq!(
        write_flag(&mut doc, "\u{0C}\u{A0}", true),
        Err("feature key is empty".to_string())
    );
    assert_eq!(
        write_flag(&mut doc, "\u{A0}Collab\u{2028}", true),
        Err("feature key `collab` is no longer supported; use `multi_agent`".to_string())
    );
}

#[test]
fn write_flag_rejects_deprecated_key_in_any_casing() {
    let deprecated = "feature key `collab` is no longer supported; use `multi_agent`";
    for key in ["collab", "COLLAB", "CoLlAb", " collab ", "\tCollab\n"] {
        let mut doc = parse_document("a = 1\n").expect("parse");
        assert_eq!(write_flag(&mut doc, key, true), Err(deprecated.to_string()));
        assert_eq!(write_flag(&mut doc, key, false), Err(deprecated.to_string()));
    }
}

#[test]
fn write_flag_preserves_other_entries() {
    let mut doc = parse_document("model = \"o3\"\nsteer = false\n").expect("parse");
    assert_eq!(write_flag(&mut doc, "apps", true), Ok(()));
    assert_eq!(read_flag(&doc, "steer"), Some(false));
    assert_eq!(read_flag(&doc, "apps"), Some(true));
    assert_eq!(
        codex_config::codec::read_top_level_string(&doc, "model"),
        Some("o3".to_string())
    );
}
