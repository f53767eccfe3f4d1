use vstd::prelude::*;

verus! {

/// The extension of rule files.
pub const RULE_EXTENSION: &'static str = "mdc";

/// The extension of issue template files.
pub const TEMPLATE_EXTENSION: &'static str = "md";

/// Whether a file named `name` has the extension `ext`, as a path's extension
/// is read: the text after the last dot, where that dot does not open the name
/// (`".mdc"` has none) and the name is not `".."`.
pub open spec fn has_extension_spec(name: Seq<char>, ext: Seq<char>) -> bool {
    &&& !ext.contains('.')
    &&& name != seq!['.', '.']
    &&& name.len() >= ext.len() + 2
    &&& name[name.len() - ext.len() - 1] == '.'
    &&& name.subrange(name.len() - ext.len(), name.len() as int) == ext
}

/// Whether the file name `name` carries the extension `ext`.
pub fn has_extension(name: &str, ext: &str) -> (r: bool)
    ensures
        r == has_extension_spec(name@, ext@),
{
    let n = name.unicode_len();
    let e = ext.unicode_len();
    let mut i: usize = 0;
    while i < e
        invariant
            e == ext@.len(),
            i <= e,
            forall|j: int| 0 <= j < i ==> ext@[j] != '.',
        decreases e - i,
    {
        if ext.get_char(i) == '.' {
            return false;
        }
        i = i + 1;
    }
    if n < e || n - e < 2 {
        return false;
    }
    if n == 2 && name.get_char(0) == '.' && name.get_char(1) == '.' {
        assert(name@ =~= seq!['.', '.']);
        return false;
    }
    if name.get_char(n - e - 1) != '.' {
        return false;
    }
    let start = n - e;
    let mut k: usize = 0;
    while k < e
        invariant
            n == name@.len(),
            e == ext@.len(),
            start == n - e,
            k <= e,
            forall|j: int| 0 <= j < k ==> name@[start + j] == ext@[j],
        decreases e - k,
    {
        if name.get_char(start + k) != ext.get_char(k) {
            return false;
        }
        k = k + 1;
    }
    assert(name@.subrange(start as int, n as int) =~= ext@);
    true
}

/// Some entry of `names` carries the extension `ext`.
pub open spec fn any_with_extension_spec(names: Seq<String>, ext: Seq<char>) -> bool {
    exists|i: int| 0 <= i < names.len() && has_extension_spec((#[trigger] names[i])@, ext)
}

/// Whether some entry of `names` carries the extension `ext`.
pub fn any_with_extension(names: &Vec<String>, ext: &str) -> (r: bool)
    ensures
        r == any_with_extension_spec(names@, ext@),
{
    let mut i: usize = 0;
    while i < names.len()
        invariant
            i <= names@.len(),
            forall|j: int| 0 <= j < i ==> !has_extension_spec((#[trigger] names@[j])@, ext@),
        decreases names@.len() - i,
    {
        if has_extension(names[i].as_str(), ext) {
            return true;
        }
        i = i + 1;
    }
    false
}

/// What the syncer does with one source file.
#[derive(Clone, Copy, Debug, PartialEq, Eq, Structural)]
pub enum CopyAction {
    /// The destination is absent: copy it there.
    Copy,
    /// The destination is present and forced: overwrite it.
    Overwrite,
    /// The destination is present and not forced: leave it untouched.
    Skip,
    /// The source entry is not one the syncer considers.
    Ignore,
}

/// The skip-unless-forced policy for a file that is considered.
pub open spec fn copy_action_spec(dest_exists: bool, force: bool) -> CopyAction {
    if !dest_exists {
        CopyAction::Copy
    } else if force {
        CopyAction::Overwrite
    } else {
        CopyAction::Skip
    }
}

/// Decides what to do with a considered file, given whether its destination
/// exists and whether overwriting is forced.
pub fn decide_copy(dest_exists: bool, force: bool) -> (r: CopyAction)
    ensures
        r == copy_action_spec(dest_exists, force),
{
    if !dest_exists {
        CopyAction::Copy
    } else if force {
        CopyAction::Overwrite
    } else {
        CopyAction::Skip
    }
}


/// One entry of a source listing: its file name, and whether a file of that
/// name is already at the destination.
pub struct SourceEntry {
    pub name: String,
    pub dest_exists: bool,
}

/// One step of a sync: the file, what to do with it, and, once the caller has
/// carried it out, the message of a copy that failed.
pub struct PlannedCopy {
    pub name: String,
    pub action: CopyAction,
    pub failure: Option<String>,
}

/// The action for one entry: the skip-unless-forced policy where the entry is
/// considered, else `Ignore`.
pub open spec fn step_action(considered: bool, dest_exists: bool, force: bool) -> CopyAction {
    if considered {
        copy_action_spec(dest_exists, force)
    } else {
        CopyAction::Ignore
    }
}

/// Plans the sync of a source listing whose files with extension `ext` are
/// considered: one step per entry, in the listing's order, none failed yet.
pub fn plan_extension_sync(entries: &Vec<SourceEntry>, ext: &str, force: bool) -> (r: Vec<
    PlannedCopy,
>)
    ensures
        r@.len() == entries@.len(),
        forall|i: int|
            0 <= i < r@.len() ==> {
                &&& (#[trigger] r@[i]).name@ == entries@[i].name@
                &&& r@[i].action == step_action(
                    has_extension_spec(entries@[i].name@, ext@),
                    entries@[i].dest_exists,
                    force,
                )
                &&& r@[i].failure is None
            },
{
    let mut r: Vec<PlannedCopy> = Vec::new();
    let mut i: usize = 0;
    while i < entries.len()
        invariant
            i <= entries@.len(),
            r@.len() == i,
            forall|j: int|
                0 <= j < i ==> {
                    &&& (#[trigger] r@[j]).name@ == entries@[j].name@
                    &&& r@[j].action == step_action(
                        has_extension_spec(entries@[j].name@, ext@),
                        entries@[j].dest_exists,
                        force,
                    )
                    &&& r@[j].failure is None
                },
        decreases entries@.len() - i,
    {
        let e = &entries[i];
        let action = if has_extension(e.name.as_str(), ext) {
            decide_copy(e.dest_exists, force)
        } else {
            CopyAction::Ignore
        };
        r.push(PlannedCopy { name: e.name.clone(), action, failure: None });
        i = i + 1;
    }
    r
}

/// Whether `name` is one of `allowed`.
pub open spec fn is_listed(allowed: Seq<String>, name: Seq<char>) -> bool {
    exists|k: int| 0 <= k < allowed.len() && (#[trigger] allowed[k])@ == name
}

fn listed(allowed: &Vec<String>, name: &String) -> (r: bool)
    ensures
        r == is_listed(allowed@, name@),
{
    let mut k: usize = 0;
    while k < allowed.len()
        invariant
            k <= allowed@.len(),
            forall|j: int| 0 <= j < k ==> (#[trigger] allowed@[j])@ != name@,
        decreases allowed@.len() - k,
    {
        if allowed[k] == *name {
            return true;
        }
        k = k + 1;
    }
    false
}

/// Plans the sync of a source listing whose files named in `allowed` are
/// considered: one step per entry, in the listing's order, none failed yet.
pub fn plan_named_sync(entries: &Vec<SourceEntry>, allowed: &Vec<String>, force: bool) -> (r: Vec<
    PlannedCopy,
>)
    ensures
        r@.len() == entries@.len(),
        forall|i: int|
            0 <= i < r@.len() ==> {
                &&& (#[trigger] r@[i]).name@ == entries@[i].name@
                &&& r@[i].action == step_action(
                    is_listed(allowed@, entries@[i].name@),
                    entries@[i].dest_exists,
                    force,
                )
                &&& r@[i].failure is None
            },
{
    let mut r: Vec<PlannedCopy> = Vec::new();
    let mut i: usize = 0;
    while i < entries.len()
        invariant
            i <= entries@.len(),
            r@.len() == i,
            forall|j: int|
                0 <= j < i ==> {
                    &&& (#[trigger] r@[j]).name@ == entries@[j].name@
                    &&& r@[j].action == step_action(
                        is_listed(allowed@, entries@[j].name@),
                        entries@[j].dest_exists,
                        force,
                    )
                    &&& r@[j].failure is None
                },
        decreases entries@.len() - i,
    {
        let e = &entries[i];
        let action = if listed(allowed, &e.name) {
            decide_copy(e.dest_exists, force)
        } else {
            CopyAction::Ignore
        };
        r.push(PlannedCopy { name: e.name.clone(), action, failure: None });
        i = i + 1;
    }
    r
}

/// The names of the helper scripts that a sync considers.
pub fn script_names() -> (r: Vec<String>)
    ensures
        r@.len() == 3,
        r@[0]@ == "pre-commit-hook"@,
        r@[1]@ == "validate-workflow-state.py"@,
        r@[2]@ == "pre-work-hook"@,
{
    let mut r: Vec<String> = Vec::new();
    r.push(String::from_str("pre-commit-hook"));
    r.push(String::from_str("validate-workflow-state.py"));
    r.push(String::from_str("pre-work-hook"));
    r
}

/// The outcome of a carried-out sync, as it is recorded.
pub struct SyncOutcome {
    pub copied: Vec<String>,
    pub skipped: Vec<String>,
    pub errors: Vec<String>,
}

/// The texts of a list of strings.
pub open spec fn texts(v: Seq<String>) -> Seq<Seq<char>> {
    v.map_values(|s: String| s@)
}

/// How an overwritten file is recorded: its name, annotated.
pub open spec fn updated_text(name: Seq<char>) -> Seq<char> {
    name + " (updated)"@
}

/// How a failed copy is recorded.
pub open spec fn copy_error_text(name: Seq<char>, msg: Seq<char>) -> Seq<char> {
    "Failed to copy "@ + name + ": "@ + msg
}

/// What one step adds to the copied list.
pub open spec fn copied_entry(s: PlannedCopy) -> Seq<Seq<char>> {
    if s.failure is Some {
        seq![]
    } else {
        match s.action {
            CopyAction::Copy => seq![s.name@],
            CopyAction::Overwrite => seq![updated_text(s.name@)],
            _ => seq![],
        }
    }
}

/// What one step adds to the skipped list.
pub open spec fn skipped_entry(s: PlannedCopy) -> Seq<Seq<char>> {
    if s.action == CopyAction::Skip {
        seq![s.name@]
    } else {
        seq![]
    }
}

/// What one step adds to the errors.
pub open spec fn error_entry(s: PlannedCopy) -> Seq<Seq<char>> {
    match s.failure {
        Some(m) => if s.action == CopyAction::Copy || s.action == CopyAction::Overwrite {
            seq![copy_error_text(s.name@, m@)]
        } else {
            seq![]
        },
        None => seq![],
    }
}

/// The records of all steps, in order.
pub open spec fn collect(steps: Seq<PlannedCopy>, f: spec_fn(PlannedCopy) -> Seq<Seq<char>>) -> Seq<
    Seq<char>,
>
    decreases steps.len(),
{
    if steps.len() == 0 {
        seq![]
    } else {
        collect(steps.drop_last(), f) + f(steps.last())
    }
}

/// Records a carried-out sync: each successful copy under its name (annotated
/// where it overwrote), each skipped file, each failed copy as an error.
pub fn summarize_sync(steps: &Vec<PlannedCopy>) -> (r: SyncOutcome)
    ensures
        texts(r.copied@) == collect(steps@, |s: PlannedCopy| copied_entry(s)),
        texts(r.skipped@) == collect(steps@, |s: PlannedCopy| skipped_entry(s)),
        texts(r.errors@) == collect(steps@, |s: PlannedCopy| error_entry(s)),
{
    let mut copied: Vec<String> = Vec::new();
    let mut skipped: Vec<String> = Vec::new();
    let mut errors: Vec<String> = Vec::new();
    let mut i: usize = 0;
    while i < steps.len()
        invariant
            i <= steps@.len(),
            texts(copied@) == collect(steps@.take(i as int), |s: PlannedCopy| copied_entry(s)),
            texts(skipped@) == collect(steps@.take(i as int), |s: PlannedCopy| skipped_entry(s)),
            texts(errors@) == collect(steps@.take(i as int), |s: PlannedCopy| error_entry(s)),
        decreases steps@.len() - i,
    {
        let s = &steps[i];
        proof {
            assert(steps@.take(i + 1).drop_last() =~= steps@.take(i as int));
            assert(steps@.take(i + 1).last() == steps@[i as int]);
        }
        let ghost c0 = copied@;
        let ghost k0 = skipped@;
        let ghost e0 = errors@;
        match &s.failure {
            None => {
                match s.action {
                    CopyAction::Copy => {
                        copied.push(s.name.clone());
                    },
                    CopyAction::Overwrite => {
                        copied.push(s.name.clone().concat(" (updated)"));
                    },
                    CopyAction::Skip => {
                        skipped.push(s.name.clone());
                    },
                    CopyAction::Ignore => {},
                }
            },
            Some(m) => {
                match s.action {
                    CopyAction::Copy | CopyAction::Overwrite => {
                        let msg = String::from_str("Failed to copy ").concat(s.name.as_str()).concat(
                            ": ",
                        ).concat(m.as_str());
                        errors.push(msg);
                    },
                    CopyAction::Skip => {
                        skipped.push(s.name.clone());
                    },
                    CopyAction::Ignore => {},
                }
            },
        }
        proof {
            assert(texts(copied@) =~= texts(c0) + copied_entry(steps@[i as int]));
            assert(texts(skipped@) =~= texts(k0) + skipped_entry(steps@[i as int]));
            assert(texts(errors@) =~= texts(e0) + error_entry(steps@[i as int]));
        }
        i = i + 1;
    }
    assert(steps@.take(steps@.len() as int) =~= steps@);
    SyncOutcome { copied, skipped, errors }
}


/// How many times `x` occurs in `s`.
pub open spec fn occurrences(s: Seq<Seq<char>>, x: Seq<char>) -> nat
    decreases s.len(),
{
    if s.len() == 0 {
        0
    } else {
        occurrences(s.drop_last(), x) + if s.last() == x {
            1nat
        } else {
            0nat
        }
    }
}

proof fn lemma_occurrences_append(a: Seq<Seq<char>>, b: Seq<Seq<char>>, x: Seq<char>)
    requires
        b.len() <= 1,
    ensures
        occurrences(a + b, x) == occurrences(a, x) + if b == seq![x] {
            1nat
        } else {
            0nat
        },
{
    if b.len() == 0 {
        assert(a + b =~= a);
    } else {
        assert((a + b).drop_last() =~= a);
        if b[0] == x {
            assert(b =~= seq![x]);
        }
    }
}

proof fn lemma_count_none(
    steps: Seq<PlannedCopy>,
    f: spec_fn(PlannedCopy) -> Seq<Seq<char>>,
    x: Seq<char>,
)
    requires
        forall|j: int| 0 <= j < steps.len() ==> (#[trigger] f(steps[j])).len() <= 1,
        forall|j: int| 0 <= j < steps.len() ==> #[trigger] f(steps[j]) != seq![x],
    ensures
        occurrences(collect(steps, f), x) == 0,
    decreases steps.len(),
{
    if steps.len() > 0 {
        let p = steps.drop_last();
        assert forall|j: int| 0 <= j < p.len() implies (#[trigger] f(p[j])).len() <= 1 && f(p[j])
            != seq![x] by {
            assert(p[j] == steps[j]);
        }
        lemma_count_none(p, f, x);
        lemma_occurrences_append(collect(p, f), f(steps.last()), x);
    }
}

proof fn lemma_count_single(
    steps: Seq<PlannedCopy>,
    f: spec_fn(PlannedCopy) -> Seq<Seq<char>>,
    x: Seq<char>,
    i: int,
)
    requires
        0 <= i < steps.len(),
        forall|j: int| 0 <= j < steps.len() ==> (#[trigger] f(steps[j])).len() <= 1,
        f(steps[i]) == seq![x],
        forall|j: int| 0 <= j < steps.len() && j != i ==> #[trigger] f(steps[j]) != seq![x],
    ensures
        occurrences(collect(steps, f), x) == 1,
    decreases steps.len(),
{
    let p = steps.drop_last();
    assert forall|j: int| 0 <= j < p.len() implies (#[trigger] f(p[j])).len() <= 1 by {
        assert(p[j] == steps[j]);
    }
    if i == steps.len() - 1 {
        assert forall|j: int| 0 <= j < p.len() implies #[trigger] f(p[j]) != seq![x] by {
            assert(p[j] == steps[j]);
        }
        lemma_count_none(p, f, x);
    } else {
        assert forall|j: int| 0 <= j < p.len() && j != i implies #[trigger] f(p[j]) != seq![x] by {
            assert(p[j] == steps[j]);
        }
        lemma_count_single(p, f, x, i);
    }
    lemma_occurrences_append(collect(p, f), f(steps.last()), x);
}

proof fn lemma_collect_contains(
    steps: Seq<PlannedCopy>,
    f: spec_fn(PlannedCopy) -> Seq<Seq<char>>,
    x: Seq<char>,
    i: int,
)
    requires
        0 <= i < steps.len(),
        f(steps[i]) == seq![x],
    ensures
        collect(steps, f).contains(x),
    decreases steps.len(),
{
    let p = steps.drop_last();
    if i == steps.len() - 1 {
        let c = collect(p, f);
        assert((c + f(steps.last()))[c.len() as int] == x);
    } else {
        assert(p[i] == steps[i]);
        lemma_collect_contains(p, f, x, i);
        let k = choose|k: int| 0 <= k < collect(p, f).len() && collect(p, f)[k] == x;
        assert((collect(p, f) + f(steps.last()))[k] == x);
    }
}

/// The steps of a sync without force of `entries`, as planned, with their
/// failures filled in by whoever carried them out; names in a listing are
/// distinct.
pub open spec fn carried_out(
    entries: Seq<SourceEntry>,
    ext: Seq<char>,
    steps: Seq<PlannedCopy>,
    force: bool,
) -> bool {
    &&& steps.len() == entries.len()
    &&& forall|j: int|
        0 <= j < steps.len() ==> {
            &&& (#[trigger] steps[j]).name@ == entries[j].name@
            &&& steps[j].action == step_action(
                has_extension_spec(entries[j].name@, ext),
                entries[j].dest_exists,
                force,
            )
        }
    &&& forall|j: int, k: int|
        0 <= j < entries.len() && 0 <= k < entries.len() && j != k ==> (#[trigger] entries[j]).name@
            != (#[trigger] entries[k]).name@
}

/// A considered file that is not yet at the destination, synced without force
/// and copied without failure, is copied, recorded as copied exactly once, and
/// never recorded as skipped.
pub proof fn lemma_absent_file_copied_once(
    entries: Seq<SourceEntry>,
    ext: Seq<char>,
    steps: Seq<PlannedCopy>,
    i: int,
)
    requires
        carried_out(entries, ext, steps, false),
        0 <= i < entries.len(),
        has_extension_spec(entries[i].name@, ext),
        !entries[i].dest_exists,
        steps[i].failure is None,
    ensures
        steps[i].action == CopyAction::Copy,
        occurrences(collect(steps, |s: PlannedCopy| copied_entry(s)), entries[i].name@) == 1,
        occurrences(collect(steps, |s: PlannedCopy| skipped_entry(s)), entries[i].name@) == 0,
{
    let x = entries[i].name@;
    let fc = |s: PlannedCopy| copied_entry(s);
    let fs = |s: PlannedCopy| skipped_entry(s);
    assert forall|j: int| 0 <= j < steps.len() && j != i implies #[trigger] fc(steps[j]) != seq![
        x,
    ] by {
        assert(entries[j].name@ != entries[i].name@);
        if fc(steps[j]) == seq![x] {
            assert(fc(steps[j])[0] == steps[j].name@);
        }
    }
    assert forall|j: int| 0 <= j < steps.len() implies (#[trigger] fc(steps[j])).len() <= 1 by {}
    lemma_count_single(steps, fc, x, i);
    assert forall|j: int| 0 <= j < steps.len() implies (#[trigger] fs(steps[j])).len() <= 1 && fs(
        steps[j],
    ) != seq![x] by {
        if j != i {
            assert(entries[j].name@ != entries[i].name@);
            if fs(steps[j]) == seq![x] {
                assert(fs(steps[j])[0] == steps[j].name@);
            }
        }
    }
    lemma_count_none(steps, fs, x);
}

/// A considered file already at the destination, synced without force, is left
/// untouched and recorded as skipped exactly once, and never as copied.
pub proof fn lemma_present_file_skipped_once(
    entries: Seq<SourceEntry>,
    ext: Seq<char>,
    steps: Seq<PlannedCopy>,
    i: int,
)
    requires
        carried_out(entries, ext, steps, false),
        0 <= i < entries.len(),
        has_extension_spec(entries[i].name@, ext),
        entries[i].dest_exists,
    ensures
        steps[i].action == CopyAction::Skip,
        occurrences(collect(steps, |s: PlannedCopy| skipped_entry(s)), entries[i].name@) == 1,
        occurrences(collect(steps, |s: PlannedCopy| copied_entry(s)), entries[i].name@) == 0,
{
    let x = entries[i].name@;
    let fc = |s: PlannedCopy| copied_entry(s);
    let fs = |s: PlannedCopy| skipped_entry(s);
    assert forall|j: int| 0 <= j < steps.len() && j != i implies #[trigger] fs(steps[j]) != seq![
        x,
    ] by {
        assert(entries[j].name@ != entries[i].name@);
        if fs(steps[j]) == seq![x] {
            assert(fs(steps[j])[0] == steps[j].name@);
        }
    }
    assert forall|j: int| 0 <= j < steps.len() implies (#[trigger] fs(steps[j])).len() <= 1 by {}
    lemma_count_single(steps, fs, x, i);
    assert forall|j: int| 0 <= j < steps.len() implies (#[trigger] fc(steps[j])).len() <= 1 && fc(
        steps[j],
    ) != seq![x] by {
        if j != i {
            assert(entries[j].name@ != entries[i].name@);
            if fc(steps[j]) == seq![x] {
                assert(fc(steps[j])[0] == steps[j].name@);
            }
        }
    }
    lemma_count_none(steps, fc, x);
}

/// A considered file already at the destination, synced with force and copied
/// without failure, is overwritten and recorded as copied with its name
/// annotated as updated.
pub proof fn lemma_present_file_forced_updated(
    entries: Seq<SourceEntry>,
    ext: Seq<char>,
    steps: Seq<PlannedCopy>,
    i: int,
)
    requires
        carried_out(entries, ext, steps, true),
        0 <= i < entries.len(),
        has_extension_spec(entries[i].name@, ext),
        entries[i].dest_exists,
        steps[i].failure is None,
    ensures
        steps[i].action == CopyAction::Overwrite,
        collect(steps, |s: PlannedCopy| copied_entry(s)).contains(updated_text(entries[i].name@)),
{
    lemma_collect_contains(steps, |s: PlannedCopy| copied_entry(s), updated_text(entries[i].name@), i);
}

} // verus!
