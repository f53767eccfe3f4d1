use flowmates::{
    config_path, detect_project_name, join_path, name_from_remote, read_config, select_source,
    ConfigLookup, ConfigRead, RepoProbe, SourceKind,
};

fn probe(exists: bool, rules_dir: bool, names: &[&str]) -> RepoProbe {
    RepoProbe {
        exists,
        rules_dir,
        rule_names: names.iter().map(|s| s.to_string()).collect(),
        templates_primary: false,
        templates_fallback: false,
        scripts: false,
    }
}

#[test]
fn paths_are_joined_with_one_separator() {
    assert_eq!(join_path("/home/u", ".cursor"), "/home/u/.cursor");
    assert_eq!(join_path("/home/u/", ".cursor"), "/home/u/.cursor");
    assert_eq!(join_path("", "rules"), "rules");
    assert_eq!(config_path("/home/u"), "/home/u/.flowmates/config.json");
}

#[test]
fn config_gives_repo_path() {
    let r = read_config(&ConfigRead::Text("{ \"repo_path\": \"/src/flowmates\" }".to_string()));
    assert!(matches!(r, ConfigLookup::RepoPath(ref p) if p == "/src/flowmates"));
}

#[test]
fn config_without_usable_repo_path() {
    assert!(matches!(read_config(&ConfigRead::Text("not json".to_string())), ConfigLookup::Unusable));
    assert!(matches!(read_config(&ConfigRead::Text("{\"other\": 1}".to_string())), ConfigLookup::Unusable));
    assert!(matches!(read_config(&ConfigRead::Text("{\"repo_path\": 3}".to_string())), ConfigLookup::Unusable));
    assert!(matches!(read_config(&ConfigRead::Text("[\"repo_path\"]".to_string())), ConfigLookup::Unusable));
    assert!(matches!(read_config(&ConfigRead::Unreadable), ConfigLookup::Unusable));
    assert!(matches!(read_config(&ConfigRead::Missing), ConfigLookup::NotConfigured));
}

#[test]
fn no_source_without_config_or_cursor_dir() {
    let mut warnings = Vec::new();
    let r = select_source(
        "/home/u",
        &ConfigLookup::NotConfigured,
        &probe(false, false, &[]),
        &probe(false, false, &[]),
        &mut warnings,
    );
    assert!(r.is_none());
    assert_eq!(warnings, vec!["Flowmates repository not configured. Using ~/.cursor/ as fallback.".to_string()]);
}

#[test]
fn configured_repository_is_preferred() {
    let mut warnings = Vec::new();
    let mut primary = probe(true, true, &["a.mdc", "b.mdc"]);
    primary.templates_fallback = true;
    primary.scripts = true;
    let r = select_source(
        "/home/u",
        &ConfigLookup::RepoPath("/src/fm".to_string()),
        &primary,
        &probe(true, true, &[]),
        &mut warnings,
    )
    .unwrap();
    assert!(warnings.is_empty());
    assert_eq!(r.kind, SourceKind::Flowmates);
    assert_eq!(r.base_path, "/src/fm");
    assert_eq!(r.rules_path, "/src/fm/rules");
    assert_eq!(r.templates_path.as_deref(), Some("/src/fm/docs/issues/templates"));
    assert_eq!(r.scripts_path.as_deref(), Some("/src/fm/scripts"));
}

#[test]
fn repository_without_rule_files_falls_back() {
    let mut warnings = Vec::new();
    let mut fallback = probe(true, true, &[]);
    fallback.templates_primary = true;
    fallback.templates_fallback = true;
    let r = select_source(
        "/home/u",
        &ConfigLookup::RepoPath("/src/fm".to_string()),
        &probe(true, true, &["README.md"]),
        &fallback,
        &mut warnings,
    )
    .unwrap();
    assert_eq!(
        warnings,
        vec!["Flowmates repository path invalid: /src/fm. Using ~/.cursor/ as fallback.".to_string()]
    );
    assert_eq!(r.kind, SourceKind::Cursor);
    assert_eq!(r.base_path, "/home/u/.cursor");
    assert_eq!(r.rules_path, "/home/u/.cursor/rules");
    assert_eq!(r.templates_path.as_deref(), Some("/home/u/.cursor/issues/shared/templates"));
    assert_eq!(r.scripts_path, None);
}

#[test]
fn unusable_config_warns_and_falls_back() {
    let mut warnings = Vec::new();
    let r = select_source(
        "/home/u",
        &ConfigLookup::Unusable,
        &probe(false, false, &[]),
        &probe(true, true, &[]),
        &mut warnings,
    );
    assert_eq!(r.unwrap().kind, SourceKind::Cursor);
    assert_eq!(warnings.len(), 1);
}

#[test]
fn remote_url_names_the_project() {
    assert_eq!(name_from_remote("https://github.com/org/echo.git\n").as_deref(), Some("echo"));
    assert_eq!(name_from_remote("  git@github.com:org/echo.git  ").as_deref(), Some("echo"));
    assert_eq!(name_from_remote("echo.git").as_deref(), Some("echo"));
    assert_eq!(name_from_remote("https://host/org/.git").as_deref(), Some(""));
    assert_eq!(name_from_remote("https://github.com/org/echo"), None);
    assert_eq!(name_from_remote("https://host/echo.git/"), None);
    assert_eq!(name_from_remote(""), None);
}

#[test]
fn project_name_falls_back_to_directory() {
    let remote = Some("https://github.com/org/echo.git\n".to_string());
    let dir = Some("work".to_string());
    assert_eq!(detect_project_name(&remote, &dir), "echo");
    assert_eq!(detect_project_name(&Some("https://host/echo".to_string()), &dir), "work");
    assert_eq!(detect_project_name(&None, &Some("flowmates".to_string())), "flowmates");
    assert_eq!(detect_project_name(&None, &None), "project");
}
