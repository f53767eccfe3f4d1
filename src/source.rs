use vstd::prelude::*;
use crate::gitignore::opt_text;
use crate::paths::{join_path, join_spec};
use crate::sync::{any_with_extension, any_with_extension_spec, texts, RULE_EXTENSION};

verus! {

/// The `repo_path` string of the JSON object in `text`; `None` where `text` is
/// not JSON or holds no such string.
pub uninterp spec fn json_repo_path(text: Seq<char>) -> Option<Seq<char>>;

/// Relies on `serde_json::from_str` to parse the configuration as a JSON
/// value, and on `Value::get` and `Value::as_str` to read its string field
/// `repo_path`.
#[verifier::external_body]
fn parse_repo_path(text: &str) -> (r: Option<String>)
    ensures
        opt_text(r) == json_repo_path(text@),
{
    let value: serde_json::Value = serde_json::from_str(text).ok()?;
    value.get("repo_path")?.as_str().map(String::from)
}

/// What reading the configuration file gave.
pub enum ConfigRead {
    /// There is no configuration file.
    Missing,
    /// The file exists but could not be read.
    Unreadable,
    /// The file's text.
    Text(String),
}

/// What the configuration says of the primary source.
pub enum ConfigLookup {
    /// There is no configuration.
    NotConfigured,
    /// The configuration is unreadable, not JSON, or lacks `repo_path`.
    Unusable,
    /// The configured repository path.
    RepoPath(String),
}

/// Reads the configured repository path out of the configuration file.
pub fn read_config(read: &ConfigRead) -> (r: ConfigLookup)
    ensures
        match *read {
            ConfigRead::Missing => r is NotConfigured,
            ConfigRead::Unreadable => r is Unusable,
            ConfigRead::Text(t) => match json_repo_path(t@) {
                Some(p) => r is RepoPath && r->RepoPath_0@ == p,
                None => r is Unusable,
            },
        },
{
    match read {
        ConfigRead::Missing => ConfigLookup::NotConfigured,
        ConfigRead::Unreadable => ConfigLookup::Unusable,
        ConfigRead::Text(t) => match parse_repo_path(t.as_str()) {
            Some(p) => ConfigLookup::RepoPath(p),
            None => ConfigLookup::Unusable,
        },
    }
}

/// Where the configuration file lies under the home directory.
pub fn config_path(home: &str) -> (r: String)
    ensures
        r@ == join_spec(home@, ".flowmates/config.json"@),
{
    join_path(home, ".flowmates/config.json")
}

/// What the caller found on disk at a candidate source directory.
pub struct RepoProbe {
    /// The directory exists.
    pub exists: bool,
    /// It has a `rules` subdirectory.
    pub rules_dir: bool,
    /// The names of the entries of that subdirectory.
    pub rule_names: Vec<String>,
    /// It has `issues/shared/templates`.
    pub templates_primary: bool,
    /// It has `docs/issues/templates`.
    pub templates_fallback: bool,
    /// It has `scripts`.
    pub scripts: bool,
}

/// Which of the two known sources supplied the content.
#[derive(Clone, Copy, Debug, PartialEq, Eq, Structural)]
pub enum SourceKind {
    /// The repository named by the configuration file.
    Flowmates,
    /// The per-user `.cursor` directory.
    Cursor,
}

/// The resolved content source.
pub struct SourceInfo {
    pub base_path: String,
    pub rules_path: String,
    pub templates_path: Option<String>,
    pub scripts_path: Option<String>,
    pub kind: SourceKind,
}

/// The paths of a content source, as text.
pub struct SourceView {
    pub base: Seq<char>,
    pub rules: Seq<char>,
    pub templates: Option<Seq<char>>,
    pub scripts: Option<Seq<char>>,
    pub kind: SourceKind,
}

impl View for SourceInfo {
    type V = SourceView;

    open spec fn view(&self) -> SourceView {
        SourceView {
            base: self.base_path@,
            rules: self.rules_path@,
            templates: opt_text(self.templates_path),
            scripts: opt_text(self.scripts_path),
            kind: self.kind,
        }
    }
}

/// A candidate primary source is usable: it exists and holds at least one rule
/// file in its `rules` subdirectory.
pub open spec fn valid_repo(p: RepoProbe) -> bool {
    p.exists && p.rules_dir && any_with_extension_spec(p.rule_names@, RULE_EXTENSION@)
}

/// The templates directory of a source at `base`: the primary location where
/// it exists, else the fallback one, else none.
pub open spec fn templates_spec(base: Seq<char>, p: RepoProbe) -> Option<Seq<char>> {
    if p.templates_primary {
        Some(join_spec(base, "issues/shared/templates"@))
    } else if p.templates_fallback {
        Some(join_spec(base, "docs/issues/templates"@))
    } else {
        None
    }
}

/// The source chosen: the configured repository where it is usable, else the
/// per-user `.cursor` directory under `home` where it has rules, else none.
pub open spec fn select_spec(home: Seq<char>, lookup: ConfigLookup, primary: RepoProbe, fallback: RepoProbe) -> Option<SourceView> {
    if lookup is RepoPath && valid_repo(primary) {
        let b = lookup->RepoPath_0@;
        Some(
            SourceView {
                base: b,
                rules: join_spec(b, "rules"@),
                templates: templates_spec(b, primary),
                scripts: if primary.scripts {
                    Some(join_spec(b, "scripts"@))
                } else {
                    None
                },
                kind: SourceKind::Flowmates,
            },
        )
    } else if fallback.rules_dir {
        let b = join_spec(home, ".cursor"@);
        Some(
            SourceView {
                base: b,
                rules: join_spec(b, "rules"@),
                templates: templates_spec(b, fallback),
                scripts: None,
                kind: SourceKind::Cursor,
            },
        )
    } else {
        None
    }
}

/// The warnings that choosing a source records.
pub open spec fn discovery_warnings(lookup: ConfigLookup, primary: RepoProbe) -> Seq<Seq<char>> {
    match lookup {
        ConfigLookup::NotConfigured => seq![
            "Flowmates repository not configured. Using ~/.cursor/ as fallback."@,
        ],
        ConfigLookup::Unusable => seq![
            "Flowmates configuration unreadable or without repo_path. Using ~/.cursor/ as fallback."@,
        ],
        ConfigLookup::RepoPath(p) => if valid_repo(primary) {
            seq![]
        } else {
            seq![
                "Flowmates repository path invalid: "@ + p@ + ". Using ~/.cursor/ as fallback."@,
            ]
        },
    }
}

fn templates_path(base: &str, p: &RepoProbe) -> (r: Option<String>)
    ensures
        opt_text(r) == templates_spec(base@, *p),
{
    if p.templates_primary {
        Some(join_path(base, "issues/shared/templates"))
    } else if p.templates_fallback {
        Some(join_path(base, "docs/issues/templates"))
    } else {
        None
    }
}

/// Chooses the content source from the configuration and what was found at
/// the configured repository (`primary`) and at `.cursor` under `home`
/// (`fallback`), and records the warnings of the choice. `None` means that
/// there is nothing to sync from.
pub fn select_source(
    home: &str,
    lookup: &ConfigLookup,
    primary: &RepoProbe,
    fallback: &RepoProbe,
    warnings: &mut Vec<String>,
) -> (r: Option<SourceInfo>)
    ensures
        match r {
            Some(s) => select_spec(home@, *lookup, *primary, *fallback) == Some(s@),
            None => select_spec(home@, *lookup, *primary, *fallback) is None,
        },
        texts(final(warnings)@) == texts(old(warnings)@) + discovery_warnings(*lookup, *primary),
{
    let ghost w0 = warnings@;
    let valid = primary.exists && primary.rules_dir && any_with_extension(&primary.rule_names, RULE_EXTENSION);
    match lookup {
        ConfigLookup::NotConfigured => {
            warnings.push(
                String::from_str("Flowmates repository not configured. Using ~/.cursor/ as fallback."),
            );
        },
        ConfigLookup::Unusable => {
            warnings.push(
                String::from_str(
                    "Flowmates configuration unreadable or without repo_path. Using ~/.cursor/ as fallback.",
                ),
            );
        },
        ConfigLookup::RepoPath(p) => {
            if valid {
                proof {
                    assert(texts(warnings@) =~= texts(w0) + discovery_warnings(*lookup, *primary));
                }
                let base = p.as_str();
                return Some(
                    SourceInfo {
                        base_path: String::from_str(base),
                        rules_path: join_path(base, "rules"),
                        templates_path: templates_path(base, primary),
                        scripts_path: if primary.scripts {
                            Some(join_path(base, "scripts"))
                        } else {
                            None
                        },
                        kind: SourceKind::Flowmates,
                    },
                );
            }
            warnings.push(
                String::from_str("Flowmates repository path invalid: ").concat(p.as_str()).concat(
                    ". Using ~/.cursor/ as fallback.",
                ),
            );
        },
    }
    proof {
        assert(texts(warnings@) =~= texts(w0) + discovery_warnings(*lookup, *primary));
    }
    if fallback.rules_dir {
        let base = join_path(home, ".cursor");
        let rules_path = join_path(base.as_str(), "rules");
        let templates_path = templates_path(base.as_str(), fallback);
        Some(
            SourceInfo {
                base_path: base,
                rules_path,
                templates_path,
                scripts_path: None,
                kind: SourceKind::Cursor,
            },
        )
    } else {
        None
    }
}

} // verus!
