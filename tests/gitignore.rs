use flowmates::{has_ignore_entry, reconcile_gitignore, GitignoreAction};

#[test]
fn entry_detection_matches_trimmed_prefix_ignoring_case() {
    assert!(has_ignore_entry(".cursor"));
    assert!(has_ignore_entry(".cursor/"));
    assert!(has_ignore_entry("  .CURSOR/  "));
    assert!(has_ignore_entry(".cursorrules"));
    assert!(has_ignore_entry("target/\n\t.Cursor\nnode_modules/\n"));
    assert!(has_ignore_entry("a\r\n.cursor\r\n"));
}

#[test]
fn entry_detection_ignores_comments_and_blanks() {
    assert!(!has_ignore_entry(""));
    assert!(!has_ignore_entry("\n\n"));
    assert!(!has_ignore_entry("# .cursor/"));
    assert!(!has_ignore_entry("target/\nfoo/.cursor\n"));
    assert!(!has_ignore_entry(".cur\nsor"));
    assert!(!has_ignore_entry(".cursr"));
}

#[test]
fn missing_gitignore_is_created() {
    let u = reconcile_gitignore(&None);
    assert_eq!(u.action, GitignoreAction::Created);
    assert_eq!(u.text, "# Cursor agent state and cache\n.cursor/\n");
}

#[test]
fn gitignore_without_entry_gets_it_appended() {
    let u = reconcile_gitignore(&Some("target/\n".to_string()));
    assert_eq!(u.action, GitignoreAction::Added);
    assert_eq!(u.text, "\n# Cursor agent state and cache\n.cursor/\n");
}

#[test]
fn gitignore_with_entry_is_skipped() {
    let u = reconcile_gitignore(&Some("target/\n.cursor/\n".to_string()));
    assert_eq!(u.action, GitignoreAction::Skipped);
    assert_eq!(u.text, "");
}

fn count_entries(text: &str) -> usize {
    text.lines().filter(|l| has_ignore_entry(l)).count()
}

#[test]
fn gitignore_reconciliation_is_idempotent() {
    let original = "target/".to_string();
    let first = reconcile_gitignore(&Some(original.clone()));
    assert_eq!(first.action, GitignoreAction::Added);
    let after = original + &first.text;
    assert_eq!(count_entries(&after), 1);
    let second = reconcile_gitignore(&Some(after.clone()));
    assert_eq!(second.action, GitignoreAction::Skipped);
    assert_eq!(count_entries(&(after + &second.text)), 1);

    let created = reconcile_gitignore(&None);
    assert_eq!(count_entries(&created.text), 1);
    assert_eq!(reconcile_gitignore(&Some(created.text)).action, GitignoreAction::Skipped);
}
