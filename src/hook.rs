use vstd::prelude::*;

verus! {

/// What installing the pre-commit hook did.
#[derive(Clone, Copy, Debug, PartialEq, Eq, Structural)]
pub enum HookAction {
    /// The hook was absent and has been copied in.
    Installed,
    /// The hook was present and has been overwritten (forced).
    Updated,
    /// The hook was present and left untouched; also used when hook
    /// installation was switched off.
    Skipped,
    /// There is no hook template to install.
    NotFound,
    /// There is no git hook directory.
    NotGit,
}

/// The decision on installing the hook: the action it amounts to, and whether
/// the template is to be copied over the hook (and marked executable).
#[derive(Clone, Copy, Debug, PartialEq, Eq, Structural)]
pub struct HookPlan {
    pub action: HookAction,
    pub copy: bool,
}

/// The decision table of hook installation.
pub open spec fn hook_action_spec(
    template_exists: bool,
    hooks_dir_exists: bool,
    dest_exists: bool,
    force: bool,
) -> HookAction {
    if !template_exists {
        HookAction::NotFound
    } else if !hooks_dir_exists {
        HookAction::NotGit
    } else if dest_exists && !force {
        HookAction::Skipped
    } else if dest_exists {
        HookAction::Updated
    } else {
        HookAction::Installed
    }
}

/// Whether an action of hook installation copies the template.
pub open spec fn hook_copies(action: HookAction) -> bool {
    action == HookAction::Installed || action == HookAction::Updated
}

/// Decides on installing the hook from whether the template, the hook
/// directory and the hook itself exist, and whether overwriting is forced.
pub fn plan_hook(template_exists: bool, hooks_dir_exists: bool, dest_exists: bool, force: bool) -> (r:
    HookPlan)
    ensures
        r.action == hook_action_spec(template_exists, hooks_dir_exists, dest_exists, force),
        r.copy == hook_copies(r.action),
{
    let action = if !template_exists {
        HookAction::NotFound
    } else if !hooks_dir_exists {
        HookAction::NotGit
    } else if dest_exists && !force {
        HookAction::Skipped
    } else if dest_exists {
        HookAction::Updated
    } else {
        HookAction::Installed
    };
    HookPlan { action, copy: action == HookAction::Installed || action == HookAction::Updated }
}

/// Installing the hook is idempotent. With the template and the hook directory
/// present and the hook absent, the first run copies it in (`Installed`), after
/// which the hook exists; a second run then skips it without force and
/// overwrites it (`Updated`) with force.
pub proof fn lemma_hook_idempotent(force: bool)
    ensures
        hook_action_spec(true, true, false, force) == HookAction::Installed,
        hook_copies(hook_action_spec(true, true, false, force)),
        !force ==> hook_action_spec(true, true, true, force) == HookAction::Skipped,
        !force ==> !hook_copies(hook_action_spec(true, true, true, force)),
        force ==> hook_action_spec(true, true, true, force) == HookAction::Updated,
{
}

} // verus!
