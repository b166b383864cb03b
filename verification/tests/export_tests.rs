use codex_config::export::validate_export_path;

#[test]
fn empty_export_paths_are_rejected() {
    assert_eq!(validate_export_path(""), Err("Path is required".to_string()));
    assert_eq!(
        validate_export_path("   \t"),
        Err("Path is required".to_string())
    );
    assert_eq!(
        validate_export_path("\u{A0}\u{3000}"),
        Err("Path is required".to_string())
    );
}

#[test]
fn export_path_is_trimmed() {
    assert_eq!(
        validate_export_path(" /tmp/exports/out.md \n"),
        Ok("/tmp/exports/out.md".to_string())
    );
    assert_eq!(
        validate_export_path("relative/out.txt"),
        Ok("relative/out.txt".to_string())
    );
}
