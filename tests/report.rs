use flowmates::{
    missing_workflow_dirs, plan_hook, workflow_dirs, Category, GitignoreAction, HookAction,
    InitReport, SetupState, SourceKind, SyncOutcome,
};

fn strings(v: &[&str]) -> Vec<String> {
    v.iter().map(|s| s.to_string()).collect()
}

#[test]
fn workflow_directories_of_a_project() {
    assert_eq!(
        workflow_dirs("echo"),
        strings(&[
            "issues/echo/proposal",
            "issues/echo/todo",
            "issues/echo/in_progress",
            "issues/echo/done",
            "issues/shared/templates",
        ])
    );
    assert_eq!(
        missing_workflow_dirs("echo", &[true, false, true, false, true]),
        strings(&["issues/echo/todo", "issues/echo/done"])
    );
    assert!(missing_workflow_dirs("echo", &[true; 5]).is_empty());
}

#[test]
fn sync_outcome_goes_to_its_category() {
    let mut r = InitReport::new();
    r.record_sync(
        Category::Templates,
        SyncOutcome {
            copied: strings(&["a.md"]),
            skipped: strings(&["b.md"]),
            errors: strings(&["Failed to copy c.md: denied"]),
        },
    );
    assert_eq!(r.templates.copied, strings(&["a.md"]));
    assert_eq!(r.templates.skipped, strings(&["b.md"]));
    assert!(r.rules.copied.is_empty() && r.scripts.skipped.is_empty());
    assert_eq!(r.errors, strings(&["Failed to copy c.md: denied"]));
    assert!(!r.succeeded());
}

#[test]
fn hook_outcomes_are_recorded() {
    let mut r = InitReport::new();
    r.record_hook(plan_hook(true, true, false, false), Some("denied".to_string()), None);
    assert_eq!(r.errors, strings(&["Failed to copy git hook: denied"]));
    assert_eq!(r.hook_action, None);

    let mut r = InitReport::new();
    r.record_hook(plan_hook(true, true, true, true), None, Some("read-only".to_string()));
    assert_eq!(r.hook_action, Some(HookAction::Updated));
    assert_eq!(r.warnings, strings(&["Failed to make hook executable: read-only"]));
    assert!(r.succeeded());

    let mut r = InitReport::new();
    r.record_hook(plan_hook(false, true, false, false), Some("ignored".to_string()), None);
    assert_eq!(r.hook_action, Some(HookAction::NotFound));
    assert!(r.errors.is_empty());
}

#[test]
fn validation_reports_missing_state() {
    let mut r = InitReport::new();
    let st = SetupState {
        rules_dir_exists: false,
        rule_names: Vec::new(),
        workflow_exists: [true, true, false, true, true],
        templates_dir_exists: true,
        template_names: strings(&["x.txt"]),
    };
    r.validate_setup("echo", &st);
    assert_eq!(
        r.errors,
        strings(&[
            "Rules directory not found: .cursor/rules/",
            "Required directory missing: issues/echo/in_progress",
        ])
    );
    assert_eq!(r.warnings, strings(&["No template files found in issues/shared/templates/"]));
}

#[test]
fn validation_warns_on_empty_rules() {
    let mut r = InitReport::new();
    let st = SetupState {
        rules_dir_exists: true,
        rule_names: strings(&["README"]),
        workflow_exists: [true; 5],
        templates_dir_exists: true,
        template_names: strings(&["bug.md"]),
    };
    r.validate_setup("echo", &st);
    assert!(r.errors.is_empty());
    assert_eq!(r.warnings, strings(&["No .mdc rule files found in .cursor/rules/"]));
}

#[test]
fn summary_lists_outcomes() {
    let mut r = InitReport::new();
    r.source_used = Some(SourceKind::Flowmates);
    r.rules.copied = strings(&["a.mdc"]);
    r.gitignore_action = Some(GitignoreAction::Created);
    r.hook_action = Some(HookAction::NotFound);
    let text = r.summary("echo");
    assert_eq!(
        text,
        "\n=== Initialization Summary ===\n\n\
         Source: Flowmates repository\n\n\
         Copied/Updated rules:\n  ✓ a.mdc\n\n\
         ✓ Created .gitignore with .cursor entry\n\n\
         ⚠️  scripts/pre-commit-hook not found. Run init from flowmates repo or ensure scripts/ directory is available.\n\n\
         Project name detected: echo\n\n\
         ✓ Initialization completed successfully!\n\nNext steps:\n  - Run `load-context` to bootstrap repository context\n"
    );
    r.add_error("boom".to_string());
    let text = r.summary("echo");
    assert!(text.contains("Errors:\n  ✗ boom\n\n"));
    assert!(text.ends_with("⚠ Initialization completed with errors. Please review above.\n"));
}
