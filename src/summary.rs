use vstd::prelude::*;
use crate::gitignore::GitignoreAction;
use crate::hook::HookAction;
use crate::report::InitReport;
use crate::source::SourceKind;
use crate::sync::texts;

verus! {

/// One line per item, each the mark followed by the item.
pub open spec fn item_lines(mark: Seq<char>, items: Seq<Seq<char>>) -> Seq<char>
    decreases items.len(),
{
    if items.len() == 0 {
        seq![]
    } else {
        item_lines(mark, items.drop_last()) + mark + items.last() + seq!['\n']
    }
}

/// A titled list followed by a blank line; nothing for no items.
pub open spec fn list_section(title: Seq<char>, mark: Seq<char>, items: Seq<Seq<char>>) -> Seq<char> {
    if items.len() == 0 {
        seq![]
    } else {
        title + seq!['\n'] + item_lines(mark, items) + seq!['\n']
    }
}

/// The line on the source used.
pub open spec fn source_text(s: Option<SourceKind>) -> Seq<char> {
    match s {
        Some(SourceKind::Flowmates) => "Source: Flowmates repository\n\n"@,
        Some(SourceKind::Cursor) => "Source: ~/.cursor/ repository\n\n"@,
        None => seq![],
    }
}

/// The line on `.gitignore`.
pub open spec fn gitignore_text(a: Option<GitignoreAction>) -> Seq<char> {
    match a {
        Some(GitignoreAction::Created) => "✓ Created .gitignore with .cursor entry\n\n"@,
        Some(GitignoreAction::Added) => "✓ Added .cursor entry to .gitignore\n\n"@,
        Some(GitignoreAction::Skipped) => "⊘ .cursor already in .gitignore (skipped)\n\n"@,
        None => seq![],
    }
}

/// The line on the hook.
pub open spec fn hook_text(a: Option<HookAction>) -> Seq<char> {
    match a {
        Some(HookAction::Installed) => "✅ Git pre-commit hook installed\n\n"@,
        Some(HookAction::Updated) => "✅ Git pre-commit hook updated\n\n"@,
        Some(HookAction::Skipped) => "⚠️  Git pre-commit hook already exists (skipped)\n\n"@,
        Some(HookAction::NotFound) => "⚠️  scripts/pre-commit-hook not found. Run init from flowmates repo or ensure scripts/ directory is available.\n\n"@,
        Some(HookAction::NotGit) => "⚠️  Not a git repository, skipping hook installation\n\n"@,
        None => seq![],
    }
}

/// The closing lines.
pub open spec fn closing_text(ok: bool) -> Seq<char> {
    if ok {
        "✓ Initialization completed successfully!\n\nNext steps:\n  - Run `load-context` to bootstrap repository context\n"@
    } else {
        "⚠ Initialization completed with errors. Please review above.\n"@
    }
}

/// The summary of a run for its user.
pub open spec fn summary_spec(r: InitReport, project: Seq<char>) -> Seq<char> {
    "\n=== Initialization Summary ===\n\n"@
        + source_text(r.source_used)
        + list_section("Created directories:"@, "  ✓ "@, texts(r.created_dirs@))
        + list_section("Copied/Updated rules:"@, "  ✓ "@, texts(r.rules.copied@))
        + list_section("Skipped rules (already exist):"@, "  ⊘ "@, texts(r.rules.skipped@))
        + list_section("Copied/Updated templates:"@, "  ✓ "@, texts(r.templates.copied@))
        + list_section("Skipped templates (already exist):"@, "  ⊘ "@, texts(r.templates.skipped@))
        + list_section("Copied/Updated scripts:"@, "  ✓ "@, texts(r.scripts.copied@))
        + list_section("Skipped scripts (already exist):"@, "  ⊘ "@, texts(r.scripts.skipped@))
        + gitignore_text(r.gitignore_action)
        + hook_text(r.hook_action)
        + (if r.agent_created {
        "✓ Created AGENT.md from template\n\n"@
    } else {
        seq![]
    })
        + list_section("Warnings:"@, "  ⚠ "@, texts(r.warnings@))
        + list_section("Errors:"@, "  ✗ "@, texts(r.errors@))
        + "Project name detected: "@ + project + "\n\n"@
        + closing_text(r.errors@.len() == 0)
}

fn push_list(out: &mut String, title: &str, mark: &str, items: &Vec<String>)
    ensures
        final(out)@ == old(out)@ + list_section(title@, mark@, texts(items@)),
{
    proof {
        reveal_strlit("\n");
    }
    if items.len() == 0 {
        assert(out@ + Seq::<char>::empty() =~= out@);
        return;
    }
    let ghost start = out@;
    out.append(title);
    out.append("\n");
    let ghost head = out@;
    let mut i: usize = 0;
    while i < items.len()
        invariant
            i <= items@.len(),
            head == start + title@ + seq!['\n'],
            out@ == head + item_lines(mark@, texts(items@).take(i as int)),
        decreases items@.len() - i,
    {
        let ghost before = out@;
        out.append(mark);
        out.append(items[i].as_str());
        out.append("\n");
        proof {
            reveal_strlit("\n");
            let t = texts(items@).take(i + 1);
            assert(t.drop_last() =~= texts(items@).take(i as int));
            assert(t.last() == items@[i as int]@);
            assert(out@ =~= head + item_lines(mark@, t));
        }
        i = i + 1;
    }
    out.append("\n");
    proof {
        assert(texts(items@).take(items@.len() as int) =~= texts(items@));
        assert(out@ =~= start + list_section(title@, mark@, texts(items@)));
    }
}

impl InitReport {
    /// Renders the summary of the run, with the detected project name.
    pub fn summary(&self, project: &str) -> (r: String)
        ensures
            r@ == summary_spec(*self, project@),
    {
        let mut out = String::from_str("\n=== Initialization Summary ===\n\n");
        match self.source_used {
            Some(SourceKind::Flowmates) => out.append("Source: Flowmates repository\n\n"),
            Some(SourceKind::Cursor) => out.append("Source: ~/.cursor/ repository\n\n"),
            None => {},
        }
        let ghost s1 = out@;
        proof {
            assert(s1 =~= "\n=== Initialization Summary ===\n\n"@ + source_text(self.source_used));
        }
        push_list(&mut out, "Created directories:", "  ✓ ", &self.created_dirs);
        push_list(&mut out, "Copied/Updated rules:", "  ✓ ", &self.rules.copied);
        push_list(&mut out, "Skipped rules (already exist):", "  ⊘ ", &self.rules.skipped);
        push_list(&mut out, "Copied/Updated templates:", "  ✓ ", &self.templates.copied);
        push_list(&mut out, "Skipped templates (already exist):", "  ⊘ ", &self.templates.skipped);
        push_list(&mut out, "Copied/Updated scripts:", "  ✓ ", &self.scripts.copied);
        push_list(&mut out, "Skipped scripts (already exist):", "  ⊘ ", &self.scripts.skipped);
        let ghost s2 = out@;
        match self.gitignore_action {
            Some(GitignoreAction::Created) => out.append("✓ Created .gitignore with .cursor entry\n\n"),
            Some(GitignoreAction::Added) => out.append("✓ Added .cursor entry to .gitignore\n\n"),
            Some(GitignoreAction::Skipped) => out.append("⊘ .cursor already in .gitignore (skipped)\n\n"),
            None => {},
        }
        proof {
            assert(out@ =~= s2 + gitignore_text(self.gitignore_action));
        }
        let ghost s3 = out@;
        match self.hook_action {
            Some(HookAction::Installed) => out.append("✅ Git pre-commit hook installed\n\n"),
            Some(HookAction::Updated) => out.append("✅ Git pre-commit hook updated\n\n"),
            Some(HookAction::Skipped) => out.append("⚠️  Git pre-commit hook already exists (skipped)\n\n"),
            Some(HookAction::NotFound) => out.append("⚠️  scripts/pre-commit-hook not found. Run init from flowmates repo or ensure scripts/ directory is available.\n\n"),
            Some(HookAction::NotGit) => out.append("⚠️  Not a git repository, skipping hook installation\n\n"),
            None => {},
        }
        proof {
            assert(out@ =~= s3 + hook_text(self.hook_action));
        }
        let ghost s4 = out@;
        if self.agent_created {
            out.append("✓ Created AGENT.md from template\n\n");
        }
        let ghost s5 = out@;
        push_list(&mut out, "Warnings:", "  ⚠ ", &self.warnings);
        push_list(&mut out, "Errors:", "  ✗ ", &self.errors);
        out.append("Project name detected: ");
        out.append(project);
        out.append("\n\n");
        let ghost s6 = out@;
        if self.errors.len() == 0 {
            out.append("✓ Initialization completed successfully!\n\nNext steps:\n  - Run `load-context` to bootstrap repository context\n");
        } else {
            out.append("⚠ Initialization completed with errors. Please review above.\n");
        }
        proof {
            assert(out@ =~= s6 + closing_text(self.errors@.len() == 0));
            assert(s5 =~= s4 + (if self.agent_created {
                "✓ Created AGENT.md from template\n\n"@
            } else {
                seq![]
            }));
            assert(out@ =~= summary_spec(*self, project@));
        }
        out
    }
}

} // verus!
