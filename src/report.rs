use vstd::prelude::*;
use crate::gitignore::GitignoreAction;
use crate::hook::{HookAction, HookPlan};
use crate::paths::{workflow_dirs, workflow_dirs_spec};
use crate::source::SourceKind;
use crate::sync::{
    any_with_extension, any_with_extension_spec, texts, SyncOutcome, RULE_EXTENSION,
    TEMPLATE_EXTENSION,
};

verus! {

/// The files of one category that a run copied (or overwrote) and skipped.
pub struct FileLog {
    pub copied: Vec<String>,
    pub skipped: Vec<String>,
}

/// The outcome of every step of a run.
pub struct InitReport {
    pub rules: FileLog,
    pub templates: FileLog,
    pub scripts: FileLog,
    pub created_dirs: Vec<String>,
    pub errors: Vec<String>,
    pub warnings: Vec<String>,
    pub agent_created: bool,
    pub gitignore_action: Option<GitignoreAction>,
    pub hook_action: Option<HookAction>,
    pub source_used: Option<SourceKind>,
}

/// The three categories of synced files.
#[derive(Clone, Copy, Debug, PartialEq, Eq, Structural)]
pub enum Category {
    Rules,
    Templates,
    Scripts,
}

impl InitReport {
    /// The log of one category.
    pub open spec fn log(&self, c: Category) -> FileLog {
        match c {
            Category::Rules => self.rules,
            Category::Templates => self.templates,
            Category::Scripts => self.scripts,
        }
    }

    /// A report on which nothing is recorded yet.
    pub fn new() -> (r: InitReport)
        ensures
            forall|c: Category| (#[trigger] r.log(c)).copied@.len() == 0 && r.log(c).skipped@.len() == 0,
            r.created_dirs@.len() == 0,
            r.errors@.len() == 0,
            r.warnings@.len() == 0,
            !r.agent_created,
            r.gitignore_action is None,
            r.hook_action is None,
            r.source_used is None,
    {
        InitReport {
            rules: FileLog { copied: Vec::new(), skipped: Vec::new() },
            templates: FileLog { copied: Vec::new(), skipped: Vec::new() },
            scripts: FileLog { copied: Vec::new(), skipped: Vec::new() },
            created_dirs: Vec::new(),
            errors: Vec::new(),
            warnings: Vec::new(),
            agent_created: false,
            gitignore_action: None,
            hook_action: None,
            source_used: None,
        }
    }

    /// Records a carried-out sync of category `c`: its copies and skips go to
    /// that category's log, its failures to the errors.
    pub fn record_sync(&mut self, c: Category, outcome: SyncOutcome)
        ensures
            final(self).log(c).copied@ == old(self).log(c).copied@ + outcome.copied@,
            final(self).log(c).skipped@ == old(self).log(c).skipped@ + outcome.skipped@,
            final(self).errors@ == old(self).errors@ + outcome.errors@,
            forall|d: Category| d != c ==> #[trigger] final(self).log(d) == old(self).log(d),
            final(self).created_dirs == old(self).created_dirs,
            final(self).warnings == old(self).warnings,
            final(self).agent_created == old(self).agent_created,
            final(self).gitignore_action == old(self).gitignore_action,
            final(self).hook_action == old(self).hook_action,
            final(self).source_used == old(self).source_used,
    {
        let SyncOutcome { mut copied, mut skipped, mut errors } = outcome;
        match c {
            Category::Rules => {
                self.rules.copied.append(&mut copied);
                self.rules.skipped.append(&mut skipped);
            },
            Category::Templates => {
                self.templates.copied.append(&mut copied);
                self.templates.skipped.append(&mut skipped);
            },
            Category::Scripts => {
                self.scripts.copied.append(&mut copied);
                self.scripts.skipped.append(&mut skipped);
            },
        }
        self.errors.append(&mut errors);
    }

    /// Records a hard error.
    pub fn add_error(&mut self, msg: String)
        ensures
            final(self).errors@ == old(self).errors@.push(msg),
            final(self).warnings == old(self).warnings,
            final(self).created_dirs == old(self).created_dirs,
            final(self).rules == old(self).rules,
            final(self).templates == old(self).templates,
            final(self).scripts == old(self).scripts,
            final(self).agent_created == old(self).agent_created,
            final(self).gitignore_action == old(self).gitignore_action,
            final(self).hook_action == old(self).hook_action,
            final(self).source_used == old(self).source_used,
    {
        self.errors.push(msg);
    }

    /// Records a warning.
    pub fn add_warning(&mut self, msg: String)
        ensures
            final(self).warnings@ == old(self).warnings@.push(msg),
            final(self).errors == old(self).errors,
            final(self).created_dirs == old(self).created_dirs,
            final(self).rules == old(self).rules,
            final(self).templates == old(self).templates,
            final(self).scripts == old(self).scripts,
            final(self).agent_created == old(self).agent_created,
            final(self).gitignore_action == old(self).gitignore_action,
            final(self).hook_action == old(self).hook_action,
            final(self).source_used == old(self).source_used,
    {
        self.warnings.push(msg);
    }

    /// Records the outcome of installing the hook as planned: where the copy
    /// failed, an error and no action; else the planned action, with a
    /// warning where the hook could not be made executable.
    pub fn record_hook(
        &mut self,
        plan: HookPlan,
        copy_failure: Option<String>,
        chmod_failure: Option<String>,
    )
        ensures
            plan.copy && copy_failure is Some ==> {
                &&& texts(final(self).errors@) == texts(old(self).errors@).push(
                    "Failed to copy git hook: "@ + copy_failure->0@,
                )
                &&& final(self).hook_action == old(self).hook_action
                &&& final(self).warnings == old(self).warnings
            },
            plan.copy && copy_failure is None && chmod_failure is Some ==> {
                &&& final(self).errors == old(self).errors
                &&& final(self).hook_action == Some(plan.action)
                &&& texts(final(self).warnings@) == texts(old(self).warnings@).push(
                    "Failed to make hook executable: "@ + chmod_failure->0@,
                )
            },
            !plan.copy || (copy_failure is None && chmod_failure is None) ==> {
                &&& final(self).errors == old(self).errors
                &&& final(self).hook_action == Some(plan.action)
                &&& final(self).warnings == old(self).warnings
            },
            final(self).created_dirs == old(self).created_dirs,
            final(self).rules == old(self).rules,
            final(self).templates == old(self).templates,
            final(self).scripts == old(self).scripts,
            final(self).agent_created == old(self).agent_created,
            final(self).gitignore_action == old(self).gitignore_action,
            final(self).source_used == old(self).source_used,
    {
        if plan.copy {
            if let Some(e) = copy_failure {
                let ghost e0 = self.errors@;
                self.errors.push(String::from_str("Failed to copy git hook: ").concat(e.as_str()));
                proof {
                    assert(texts(self.errors@) =~= texts(e0).push(self.errors@.last()@));
                }
                return;
            }
            if let Some(e) = chmod_failure {
                let ghost w0 = self.warnings@;
                self.warnings.push(
                    String::from_str("Failed to make hook executable: ").concat(e.as_str()),
                );
                proof {
                    assert(texts(self.warnings@) =~= texts(w0).push(self.warnings@.last()@));
                }
            }
        }
        self.hook_action = Some(plan.action);
    }

    /// Whether the run ends successfully: no hard error was recorded.
    pub fn succeeded(&self) -> (r: bool)
        ensures
            r == (self.errors@.len() == 0),
    {
        self.errors.len() == 0
    }
}

/// The first `n` workflow directories of `project` that are missing, in
/// order, where `exists[i]` says whether the `i`-th of them exists.
pub open spec fn missing_dirs_spec(project: Seq<char>, exists: Seq<bool>, n: int) -> Seq<Seq<char>>
    decreases n,
{
    if n <= 0 {
        seq![]
    } else if exists[n - 1] {
        missing_dirs_spec(project, exists, n - 1)
    } else {
        missing_dirs_spec(project, exists, n - 1).push(workflow_dirs_spec(project)[n - 1])
    }
}

/// The workflow directories of `project` to create, in order: those that do
/// not exist yet. Only these are recorded as created.
pub fn missing_workflow_dirs(project: &str, exists: &[bool; 5]) -> (r: Vec<String>)
    ensures
        texts(r@) == missing_dirs_spec(project@, exists@, 5),
{
    let dirs = workflow_dirs(project);
    let mut r: Vec<String> = Vec::new();
    let mut i: usize = 0;
    while i < 5
        invariant
            i <= 5,
            dirs@.len() == 5,
            forall|j: int| 0 <= j < 5 ==> (#[trigger] dirs@[j])@ == workflow_dirs_spec(project@)[j],
            texts(r@) == missing_dirs_spec(project@, exists@, i as int),
        decreases 5 - i,
    {
        if !exists[i] {
            let ghost r0 = r@;
            r.push(dirs[i].clone());
            proof {
                assert(texts(r@) =~= texts(r0).push(dirs@[i as int]@));
            }
        }
        i = i + 1;
    }
    r
}


/// The state of the working tree after a run, as found on disk.
pub struct SetupState {
    /// `.cursor/rules/` exists.
    pub rules_dir_exists: bool,
    /// The names of its entries.
    pub rule_names: Vec<String>,
    /// Whether each workflow directory exists, in the order of
    /// `workflow_dirs`.
    pub workflow_exists: [bool; 5],
    /// `issues/shared/templates/` exists.
    pub templates_dir_exists: bool,
    /// The names of its entries.
    pub template_names: Vec<String>,
}

/// The message for a missing workflow directory.
pub open spec fn missing_dir_text(d: Seq<char>) -> Seq<char> {
    "Required directory missing: "@ + d
}

/// The errors that validating the setup records.
pub open spec fn validation_errors(project: Seq<char>, st: SetupState) -> Seq<Seq<char>> {
    let rules: Seq<Seq<char>> = if st.rules_dir_exists {
        seq![]
    } else {
        seq!["Rules directory not found: .cursor/rules/"@]
    };
    rules + missing_dirs_spec(project, st.workflow_exists@, 5).map_values(
        |d: Seq<char>| missing_dir_text(d),
    )
}

/// The warnings that validating the setup records.
pub open spec fn validation_warnings(st: SetupState) -> Seq<Seq<char>> {
    let rules: Seq<Seq<char>> = if st.rules_dir_exists && !any_with_extension_spec(
        st.rule_names@,
        RULE_EXTENSION@,
    ) {
        seq!["No .mdc rule files found in .cursor/rules/"@]
    } else {
        seq![]
    };
    let templates: Seq<Seq<char>> = if st.templates_dir_exists && !any_with_extension_spec(
        st.template_names@,
        TEMPLATE_EXTENSION@,
    ) {
        seq!["No template files found in issues/shared/templates/"@]
    } else {
        seq![]
    };
    rules + templates
}

impl InitReport {
    /// Checks the state of the working tree after a run, apart from what was
    /// recorded during it: a missing rules directory or workflow directory is
    /// an error, a rules or templates directory without matching files a
    /// warning.
    pub fn validate_setup(&mut self, project: &str, st: &SetupState)
        ensures
            texts(final(self).errors@) == texts(old(self).errors@) + validation_errors(project@, *st),
            texts(final(self).warnings@) == texts(old(self).warnings@) + validation_warnings(*st),
            final(self).created_dirs == old(self).created_dirs,
            final(self).rules == old(self).rules,
            final(self).templates == old(self).templates,
            final(self).scripts == old(self).scripts,
            final(self).gitignore_action == old(self).gitignore_action,
            final(self).hook_action == old(self).hook_action,
            final(self).agent_created == old(self).agent_created,
            final(self).source_used == old(self).source_used,
    {
        let ghost e0 = texts(self.errors@);
        let ghost w0 = texts(self.warnings@);
        if !st.rules_dir_exists {
            self.errors.push(String::from_str("Rules directory not found: .cursor/rules/"));
        } else if !any_with_extension(&st.rule_names, RULE_EXTENSION) {
            self.warnings.push(String::from_str("No .mdc rule files found in .cursor/rules/"));
        }
        proof {
            let rules: Seq<Seq<char>> = if st.rules_dir_exists {
                seq![]
            } else {
                seq!["Rules directory not found: .cursor/rules/"@]
            };
            assert(texts(self.errors@) =~= e0 + rules);
            let rules_w: Seq<Seq<char>> = if st.rules_dir_exists && !any_with_extension_spec(
                st.rule_names@,
                RULE_EXTENSION@,
            ) {
                seq!["No .mdc rule files found in .cursor/rules/"@]
            } else {
                seq![]
            };
            assert(texts(self.warnings@) =~= w0 + rules_w);
        }
        let ghost s1 = *self;
        let ghost e1 = texts(self.errors@);
        let missing = missing_workflow_dirs(project, &st.workflow_exists);
        let mut k: usize = 0;
        while k < missing.len()
            invariant
                k <= missing@.len(),
                texts(missing@) == missing_dirs_spec(project@, st.workflow_exists@, 5),
                texts(self.errors@) == e1 + texts(missing@).take(k as int).map_values(|d: Seq<char>| missing_dir_text(d)),
                self.warnings == s1.warnings,
                self.created_dirs == s1.created_dirs,
                self.rules == s1.rules,
                self.templates == s1.templates,
                self.scripts == s1.scripts,
                self.gitignore_action == s1.gitignore_action,
                self.hook_action == s1.hook_action,
                self.agent_created == s1.agent_created,
                self.source_used == s1.source_used,
            decreases missing@.len() - k,
        {
            let ghost before = self.errors@;
            self.errors.push(String::from_str("Required directory missing: ").concat(missing[k].as_str()));
            proof {
                assert(texts(missing@).take(k + 1) =~= texts(missing@).take(k as int).push(
                    missing@[k as int]@,
                ));
                assert(texts(self.errors@) =~= texts(before).push(self.errors@.last()@));
                assert(texts(missing@)[k as int] == missing@[k as int]@);
                assert(self.errors@.last()@ == missing_dir_text(missing@[k as int]@));
                assert(texts(missing@).take(k + 1).map_values(|d: Seq<char>| missing_dir_text(d)) =~= texts(missing@).take(
                    k as int,
                ).map_values(|d: Seq<char>| missing_dir_text(d)).push(missing_dir_text(texts(missing@)[k as int])));
                assert(texts(self.errors@) =~= e1 + texts(missing@).take(k + 1).map_values(|d: Seq<char>| missing_dir_text(d)));
            }
            k = k + 1;
        }
        proof {
            assert(texts(missing@).take(missing@.len() as int) =~= texts(missing@));
        }
        let ghost w1 = texts(self.warnings@);
        if st.templates_dir_exists && !any_with_extension(&st.template_names, TEMPLATE_EXTENSION) {
            self.warnings.push(
                String::from_str("No template files found in issues/shared/templates/"),
            );
        }
        proof {
            assert(texts(self.warnings@) =~= w0 + validation_warnings(*st));
        }
    }
}

} // verus!
