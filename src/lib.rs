//! Bootstraps a repository's local workflow scaffolding: which files to copy
//! from a content source, how to reconcile `.gitignore`, whether to install the
//! pre-commit hook, and the report that collects every outcome. The filesystem
//! work itself is done by the caller; this crate decides and records.

pub mod agent;
pub mod gitignore;
pub mod hook;
pub mod paths;
pub mod project;
pub mod report;
pub mod source;
pub mod summary;
pub mod sync;


pub use agent::{fill_project_name, plan_agent, AgentStep};
pub use gitignore::{has_ignore_entry, reconcile_gitignore, GitignoreAction, GitignoreUpdate};
pub use hook::{plan_hook, HookAction, HookPlan};
pub use paths::{join_path, workflow_dirs};
pub use project::{detect_project_name, name_from_remote};
pub use report::{missing_workflow_dirs, Category, FileLog, InitReport, SetupState};
pub use source::{
    config_path, read_config, select_source, ConfigLookup, ConfigRead, RepoProbe, SourceInfo,
    SourceKind,
};
pub use sync::{
    any_with_extension, decide_copy, has_extension, plan_extension_sync, plan_named_sync,
    script_names, summarize_sync, CopyAction, PlannedCopy, SourceEntry, SyncOutcome,
    RULE_EXTENSION, TEMPLATE_EXTENSION,
};
