use flowmates::{
    any_with_extension, decide_copy, has_extension, plan_extension_sync, plan_named_sync,
    script_names, summarize_sync, CopyAction, PlannedCopy, SourceEntry,
};

fn entry(name: &str, dest_exists: bool) -> SourceEntry {
    SourceEntry { name: name.to_string(), dest_exists }
}

fn strings(v: &[&str]) -> Vec<String> {
    v.iter().map(|s| s.to_string()).collect()
}

#[test]
fn extension_is_read_after_last_dot() {
    assert!(has_extension("a.mdc", "mdc"));
    assert!(has_extension("x.y.mdc", "mdc"));
    assert!(has_extension("a.md", "md"));
    assert!(!has_extension("a.md", "mdc"));
    assert!(!has_extension("a.mdc", "md"));
    assert!(!has_extension("a.mdc.bak", "mdc"));
    assert!(!has_extension("mdc", "mdc"));
}

#[test]
fn leading_dot_is_no_extension() {
    assert!(!has_extension(".mdc", "mdc"));
    assert!(has_extension("..mdc", "mdc"));
    assert!(!has_extension("..", ""));
    assert!(has_extension("a.", ""));
    assert!(!has_extension("a.b.mdc", "b.mdc"));
}

#[test]
fn any_with_extension_finds_one() {
    assert!(any_with_extension(&strings(&["README", "x.mdc"]), "mdc"));
    assert!(!any_with_extension(&strings(&["README", ".mdc", "x.md"]), "mdc"));
    assert!(!any_with_extension(&Vec::new(), "mdc"));
}

#[test]
fn copy_policy_table() {
    assert_eq!(decide_copy(false, false), CopyAction::Copy);
    assert_eq!(decide_copy(false, true), CopyAction::Copy);
    assert_eq!(decide_copy(true, false), CopyAction::Skip);
    assert_eq!(decide_copy(true, true), CopyAction::Overwrite);
}

#[test]
fn plan_filters_by_extension() {
    let entries = vec![entry("a.mdc", false), entry("notes.txt", false), entry("b.mdc", true)];
    let plan = plan_extension_sync(&entries, "mdc", false);
    assert_eq!(plan.len(), 3);
    assert_eq!(plan[0].name, "a.mdc");
    assert_eq!(plan[0].action, CopyAction::Copy);
    assert_eq!(plan[1].action, CopyAction::Ignore);
    assert_eq!(plan[2].action, CopyAction::Skip);
    assert!(plan.iter().all(|s| s.failure.is_none()));
}

#[test]
fn plan_named_considers_only_listed() {
    let allowed = script_names();
    assert_eq!(allowed, strings(&["pre-commit-hook", "validate-workflow-state.py", "pre-work-hook"]));
    let entries = vec![entry("pre-commit-hook", true), entry("other.sh", false), entry("pre-work-hook", false)];
    let plan = plan_named_sync(&entries, &allowed, true);
    assert_eq!(plan[0].action, CopyAction::Overwrite);
    assert_eq!(plan[1].action, CopyAction::Ignore);
    assert_eq!(plan[2].action, CopyAction::Copy);
}

#[test]
fn summary_of_sync_records_each_step() {
    let steps = vec![
        PlannedCopy { name: "a.mdc".to_string(), action: CopyAction::Copy, failure: None },
        PlannedCopy { name: "b.mdc".to_string(), action: CopyAction::Overwrite, failure: None },
        PlannedCopy { name: "c.mdc".to_string(), action: CopyAction::Skip, failure: None },
        PlannedCopy { name: "d.txt".to_string(), action: CopyAction::Ignore, failure: None },
        PlannedCopy {
            name: "e.mdc".to_string(),
            action: CopyAction::Copy,
            failure: Some("permission denied".to_string()),
        },
    ];
    let out = summarize_sync(&steps);
    assert_eq!(out.copied, strings(&["a.mdc", "b.mdc (updated)"]));
    assert_eq!(out.skipped, strings(&["c.mdc"]));
    assert_eq!(out.errors, strings(&["Failed to copy e.mdc: permission denied"]));
}

#[test]
fn absent_file_is_copied_once_without_force() {
    let entries = vec![entry("a.mdc", false), entry("b.mdc", true)];
    let plan = plan_extension_sync(&entries, "mdc", false);
    assert_eq!(plan[0].action, CopyAction::Copy);
    let out = summarize_sync(&plan);
    assert_eq!(out.copied.iter().filter(|n| *n == "a.mdc").count(), 1);
    assert!(!out.skipped.contains(&"a.mdc".to_string()));
}

#[test]
fn present_file_is_skipped_once_without_force() {
    let entries = vec![entry("a.mdc", false), entry("b.mdc", true)];
    let plan = plan_extension_sync(&entries, "mdc", false);
    assert_eq!(plan[1].action, CopyAction::Skip);
    let out = summarize_sync(&plan);
    assert_eq!(out.skipped.iter().filter(|n| *n == "b.mdc").count(), 1);
    assert!(!out.copied.contains(&"b.mdc".to_string()));
}

#[test]
fn present_file_is_updated_with_force() {
    let entries = vec![entry("a.mdc", false), entry("b.mdc", true)];
    let plan = plan_extension_sync(&entries, "mdc", true);
    assert_eq!(plan[1].action, CopyAction::Overwrite);
    let out = summarize_sync(&plan);
    assert_eq!(out.copied, strings(&["a.mdc", "b.mdc (updated)"]));
    assert!(out.skipped.is_empty());
}
