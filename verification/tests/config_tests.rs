use codex_config::config::{config_toml_path, read_apps_enabled, read_config_model,
    read_feature_flag, read_personality, read_steer_enabled, write_feature_enabled,
    write_feature_flag, write_personality, write_steer_enabled, ConfigSource};
use codex_config::store::parse_document;

fn loaded(text: &str) -> ConfigSource {
    ConfigSource::Loaded(parse_document(text).expect("parse"))
}

#[test]
fn missing_root_reads_as_unset_and_writes_as_no_op() {
    assert_eq!(read_feature_flag(&ConfigSource::NoRoot, "steer"), Ok(None));
    assert_eq!(read_steer_enabled(&ConfigSource::NoRoot), Ok(None));
    assert_eq!(read_personality(&ConfigSource::NoRoot), Ok(None));

    let mut source = ConfigSource::NoRoot;
    assert_eq!(write_steer_enabled(&mut source, true), Ok(None));
    assert_eq!(write_feature_flag(&mut source, "apps", false), Ok(None));
    assert_eq!(write_personality(&mut source, "friendly"), Ok(None));
}

#[test]
fn missing_root_is_an_error_for_the_model_read() {
    assert_eq!(
        read_config_model(&ConfigSource::NoRoot),
        Err("Unable to resolve CODEX_HOME".to_string())
    );
}

#[test]
fn load_failures_propagate_verbatim() {
    let source = ConfigSource::LoadFailed("disk on fire".to_string());
    assert_eq!(
        read_feature_flag(&source, "steer"),
        Err("disk on fire".to_string())
    );
    assert_eq!(read_personality(&source), Err("disk on fire".to_string()));
    assert_eq!(read_config_model(&source), Err("disk on fire".to_string()));

    let mut source = ConfigSource::LoadFailed("disk on fire".to_string());
    assert_eq!(
        write_feature_flag(&mut source, "steer", true),
        Err("disk on fire".to_string())
    );
}

#[test]
fn three_entry_scenario_reads_each_kind() {
    let source = loaded("personality = \"Friendly\"\nsteer = true\n");
    assert_eq!(read_personality(&source), Ok(Some("friendly".to_string())));
    assert_eq!(read_steer_enabled(&source), Ok(Some(true)));
    assert_eq!(read_apps_enabled(&source), Ok(None));
    assert_eq!(read_feature_flag(&source, "apps"), Ok(None));
}

#[test]
fn written_flag_survives_a_persist_and_reload() {
    let mut source = loaded("model = \"gpt\"\n");
    let persisted = write_feature_flag(&mut source, "unified_exec", true)
        .expect("write")
        .expect("document to persist");
    let reloaded = loaded(&persisted);
    assert_eq!(read_feature_flag(&reloaded, "unified_exec"), Ok(Some(true)));
    assert_eq!(read_config_model(&reloaded), Ok(Some("gpt".to_string())));
}

#[test]
fn write_feature_enabled_trims_the_key() {
    let mut source = loaded("a = 1\n");
    let persisted = write_feature_enabled(&mut source, "  steer ", true)
        .expect("write")
        .expect("document to persist");
    let reloaded = loaded(&persisted);
    assert_eq!(read_feature_flag(&reloaded, "steer"), Ok(Some(true)));
}

#[test]
fn write_feature_enabled_validates_the_key() {
    let mut source = loaded("a = 1\n");
    assert_eq!(
        write_feature_enabled(&mut source, "   ", true),
        Err("feature key is empty".to_string())
    );
    assert_eq!(
        write_feature_enabled(&mut source, " COLLAB ", true),
        Err("feature key `collab` is no longer supported; use `multi_agent`".to_string())
    );
    assert_eq!(
        write_feature_enabled(&mut source, "\u{A0}collab", true),
        Err("feature key `collab` is no longer supported; use `multi_agent`".to_string())
    );
}

#[test]
fn written_personality_is_stored_in_canonical_form() {
    let mut source = loaded("a = 1\n");
    let persisted = write_personality(&mut source, " PRAGMATIC ")
        .expect("write")
        .expect("document to persist");
    let reloaded = loaded(&persisted);
    assert_eq!(read_personality(&reloaded), Ok(Some("pragmatic".to_string())));
}

#[test]
fn unrecognized_personality_skips_the_write_but_persists() {
    let mut source = loaded("# note\na = 1\n");
    let persisted = write_personality(&mut source, "bossy")
        .expect("write")
        .expect("document to persist");
    assert_eq!(persisted, "# note\na = 1\n".to_string());
}

#[test]
fn model_read_reports_the_stored_string() {
    assert_eq!(
        read_config_model(&loaded("model = \"o3\"\n")),
        Ok(Some("o3".to_string()))
    );
    assert_eq!(read_config_model(&loaded("a = 1\n")), Ok(None));
}

#[test]
fn config_path_joins_the_resolved_home() {
    assert_eq!(
        config_toml_path(Some("/home/me/.codex")),
        Some("/home/me/.codex/config.toml".to_string())
    );
    assert_eq!(config_toml_path(None), None);
}
