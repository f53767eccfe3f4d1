use flowmates::{fill_project_name, plan_agent, plan_hook, AgentStep, HookAction};

#[test]
fn hook_decision_table() {
    assert_eq!(plan_hook(false, true, true, true).action, HookAction::NotFound);
    assert_eq!(plan_hook(true, false, false, false).action, HookAction::NotGit);
    assert_eq!(plan_hook(true, true, true, false).action, HookAction::Skipped);
    assert_eq!(plan_hook(true, true, true, true).action, HookAction::Updated);
    assert_eq!(plan_hook(true, true, false, false).action, HookAction::Installed);
    assert_eq!(plan_hook(true, true, false, true).action, HookAction::Installed);
    assert!(plan_hook(true, true, false, false).copy);
    assert!(plan_hook(true, true, true, true).copy);
    assert!(!plan_hook(true, true, true, false).copy);
    assert!(!plan_hook(false, true, false, false).copy);
}

#[test]
fn hook_installation_is_idempotent() {
    let first = plan_hook(true, true, false, false);
    assert_eq!(first.action, HookAction::Installed);
    assert!(first.copy);
    assert_eq!(plan_hook(true, true, true, false).action, HookAction::Skipped);

    let first = plan_hook(true, true, false, true);
    assert_eq!(first.action, HookAction::Installed);
    assert_eq!(plan_hook(true, true, true, true).action, HookAction::Updated);
}

#[test]
fn agent_decision_table() {
    assert_eq!(plan_agent(true, true, false, true), AgentStep::Leave);
    assert_eq!(plan_agent(false, false, false, true), AgentStep::Write);
    assert_eq!(plan_agent(false, false, true, true), AgentStep::Leave);
    assert_eq!(plan_agent(false, true, true, true), AgentStep::Write);
    assert_eq!(plan_agent(false, true, true, false), AgentStep::WarnNoTemplate);
    assert_eq!(plan_agent(false, false, false, false), AgentStep::Leave);
}

#[test]
fn project_name_fills_every_placeholder() {
    assert_eq!(
        fill_project_name("# {{PROJECT_NAME}}\nWork on {{PROJECT_NAME}}.", "echo"),
        "# echo\nWork on echo."
    );
    assert_eq!(fill_project_name("no placeholder", "echo"), "no placeholder");
    assert_eq!(fill_project_name("{{PROJECT_NAME", "echo"), "{{PROJECT_NAME");
    assert_eq!(fill_project_name("{{{PROJECT_NAME}}}", "é"), "{é}");
    assert_eq!(fill_project_name("", "echo"), "");
}
