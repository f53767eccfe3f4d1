use vstd::prelude::*;

verus! {

/// `base` joined with the relative path `rel`: a separator is put between
/// them unless `base` is empty or ends with one.
pub open spec fn join_spec(base: Seq<char>, rel: Seq<char>) -> Seq<char> {
    if base.len() == 0 || base.last() == '/' {
        base + rel
    } else {
        base + seq!['/'] + rel
    }
}

/// Joins the relative path `rel` onto `base`.
pub fn join_path(base: &str, rel: &str) -> (r: String)
    ensures
        r@ == join_spec(base@, rel@),
{
    proof {
        reveal_strlit("/");
    }
    let n = base.unicode_len();
    if n == 0 || base.get_char(n - 1) == '/' {
        String::from_str(base).concat(rel)
    } else {
        String::from_str(base).concat("/").concat(rel)
    }
}

/// The directory of issues of one workflow stage of a project.
pub open spec fn stage_dir(project: Seq<char>, stage: Seq<char>) -> Seq<char> {
    "issues/"@ + project + seq!['/'] + stage
}

/// The shared directory of issue templates.
pub open spec fn shared_templates_dir() -> Seq<char> {
    "issues/shared/templates"@
}

/// The directories of the issue workflow of `project`, in order: its four
/// stage directories and the shared templates directory.
pub open spec fn workflow_dirs_spec(project: Seq<char>) -> Seq<Seq<char>> {
    seq![
        stage_dir(project, "proposal"@),
        stage_dir(project, "todo"@),
        stage_dir(project, "in_progress"@),
        stage_dir(project, "done"@),
        shared_templates_dir(),
    ]
}

fn stage_path(project: &str, stage: &str) -> (r: String)
    ensures
        r@ == stage_dir(project@, stage@),
{
    proof {
        reveal_strlit("/");
    }
    String::from_str("issues/").concat(project).concat("/").concat(stage)
}

/// The directories of the issue workflow of `project`.
pub fn workflow_dirs(project: &str) -> (r: Vec<String>)
    ensures
        r@.len() == 5,
        forall|i: int| 0 <= i < 5 ==> (#[trigger] r@[i])@ == workflow_dirs_spec(project@)[i],
{
    let mut r: Vec<String> = Vec::new();
    r.push(stage_path(project, "proposal"));
    r.push(stage_path(project, "todo"));
    r.push(stage_path(project, "in_progress"));
    r.push(stage_path(project, "done"));
    r.push(String::from_str("issues/shared/templates"));
    r
}

} // verus!
