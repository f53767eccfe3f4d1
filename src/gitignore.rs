use vstd::prelude::*;

verus! {

/// Unicode's White_Space property, which is what `str::trim` removes.
pub open spec fn is_white_space_spec(c: char) -> bool {
    let u = c as u32;
    (0x09 <= u <= 0x0D) || u == 0x20 || u == 0x85 || u == 0xA0 || u == 0x1680 || (0x2000 <= u
        <= 0x200A) || u == 0x2028 || u == 0x2029 || u == 0x202F || u == 0x205F || u == 0x3000
}

/// Whether `c` is white space.
pub fn is_white_space(c: char) -> (r: bool)
    ensures
        r == is_white_space_spec(c),
{
    let u = c as u32;
    (0x09 <= u && u <= 0x0D) || u == 0x20 || u == 0x85 || u == 0xA0 || u == 0x1680 || (0x2000 <= u
        && u <= 0x200A) || u == 0x2028 || u == 0x2029 || u == 0x202F || u == 0x205F || u == 0x3000
}

/// The line with its leading white space removed.
pub open spec fn strip_leading(l: Seq<char>) -> Seq<char>
    decreases l.len(),
{
    if l.len() > 0 && is_white_space_spec(l[0]) {
        strip_leading(l.skip(1))
    } else {
        l
    }
}

/// `c` and the lower-case ASCII letter or symbol `t` are equal, ignoring
/// ASCII case.
pub open spec fn same_ignoring_case(c: char, t: char) -> bool {
    c == t || ('a' as u32 <= t as u32 <= 'z' as u32 && c as u32 + 32 == t as u32)
}

/// The ignore entry that `.gitignore` must hold, without its trailing
/// separator.
pub open spec fn ignore_entry() -> Seq<char> {
    seq!['.', 'c', 'u', 'r', 's', 'o', 'r']
}

/// A line of `.gitignore` holds the entry: trimmed, it starts with the entry,
/// ignoring case. An exact match, with or without a trailing separator, is
/// such a start; a blank line or a comment never is.
pub open spec fn line_matches(l: Seq<char>) -> bool {
    let t = strip_leading(l);
    t.len() >= ignore_entry().len() && forall|j: int|
        0 <= j < ignore_entry().len() ==> same_ignoring_case(#[trigger] t[j], ignore_entry()[j])
}

/// The length of the first line of `s`: the characters before the first line
/// feed, or all of them.
pub open spec fn line_len(s: Seq<char>) -> nat
    decreases s.len(),
{
    if s.len() == 0 || s[0] == '\n' {
        0
    } else {
        1 + line_len(s.skip(1))
    }
}

/// How many lines of `s` hold the ignore entry.
pub open spec fn entry_count(s: Seq<char>) -> nat
    decreases s.len(),
{
    let n = line_len(s);
    let here: nat = if line_matches(s.take(n as int)) {
        1
    } else {
        0
    };
    if n < s.len() {
        here + entry_count(s.skip(n + 1 as int))
    } else {
        here
    }
}

proof fn lemma_line_len_exact(r: Seq<char>, m: int)
    requires
        0 <= m <= r.len(),
        forall|t: int| 0 <= t < m ==> r[t] != '\n',
        m == r.len() || r[m] == '\n',
    ensures
        line_len(r) == m,
    decreases m,
{
    if m > 0 {
        lemma_line_len_exact(r.skip(1), m - 1);
    }
}

pub(crate) proof fn lemma_strip_exact(l: Seq<char>, m: int)
    requires
        0 <= m <= l.len(),
        forall|t: int| 0 <= t < m ==> is_white_space_spec(l[t]),
        m == l.len() || !is_white_space_spec(l[m]),
    ensures
        strip_leading(l) == l.skip(m),
    decreases m,
{
    if m > 0 {
        lemma_strip_exact(l.skip(1), m - 1);
        assert(l.skip(1).skip(m - 1) =~= l.skip(m));
    } else {
        assert(l.skip(0) =~= l);
    }
}

fn entry_char(j: usize) -> (c: char)
    requires
        j < 7,
    ensures
        c == ignore_entry()[j as int],
{
    match j {
        0 => '.',
        1 => 'c',
        2 => 'u',
        3 => 'r',
        4 => 's',
        5 => 'o',
        _ => 'r',
    }
}

fn char_matches(c: char, t: char) -> (r: bool)
    ensures
        r == same_ignoring_case(c, t),
{
    c == t || ('a' as u32 <= t as u32 && t as u32 <= 'z' as u32 && c as u32 + 32 == t as u32)
}

/// Whether the text of a `.gitignore` file already holds the ignore entry on
/// one of its lines.
pub fn has_ignore_entry(content: &str) -> (r: bool)
    ensures
        r == (entry_count(content@) > 0),
{
    let ghost s = content@;
    let n = content.unicode_len();
    let mut pos: usize = 0;
    assert(s.skip(0) =~= s);
    while pos <= n
        invariant
            n == s.len(),
            s == content@,
            pos <= n,
            entry_count(s) > 0 <==> entry_count(s.skip(pos as int)) > 0,
        decreases n + 1 - pos,
    {
        let ghost rest = s.skip(pos as int);
        let mut e: usize = pos;
        while e < n && content.get_char(e) != '\n'
            invariant
                n == s.len(),
                s == content@,
                pos <= e <= n,
                forall|t: int| pos <= t < e ==> s[t] != '\n',
            decreases n - e,
        {
            e = e + 1;
        }
        proof {
            lemma_line_len_exact(rest, e - pos);
        }
        let ghost line = rest.take(e - pos);
        let mut k: usize = pos;
        while k < e && is_white_space(content.get_char(k))
            invariant
                n == s.len(),
                s == content@,
                pos <= k <= e <= n,
                forall|t: int| pos <= t < k ==> is_white_space_spec(s[t]),
            decreases e - k,
        {
            k = k + 1;
        }
        proof {
            lemma_strip_exact(line, k - pos);
        }
        let mut found = e - k >= 7;
        let mut j: usize = 0;
        while found && j < 7
            invariant
                n == s.len(),
                s == content@,
                pos <= k <= e <= n,
                j <= 7,
                line == s.skip(pos as int).take(e - pos),
                strip_leading(line) == line.skip(k - pos),
                found ==> e - k >= 7,
                found ==> forall|t: int| 0 <= t < j ==> same_ignoring_case(s[k + t], ignore_entry()[t]),
                !found ==> !line_matches(line),
            decreases 7 - j,
        {
            if !char_matches(content.get_char(k + j), entry_char(j)) {
                proof {
                    assert(strip_leading(line)[j as int] == s[k + j]);
                }
                found = false;
            }
            j = j + 1;
        }
        if found {
            proof {
                assert forall|t: int| 0 <= t < ignore_entry().len() implies same_ignoring_case(
                    #[trigger] strip_leading(line)[t],
                    ignore_entry()[t],
                ) by {
                    assert(strip_leading(line)[t] == s[k + t]);
                }
            }
            return true;
        }
        if e == n {
            return false;
        }
        proof {
            assert(rest.skip(e - pos + 1) =~= s.skip(e + 1));
        }
        pos = e + 1;
    }
    false
}


proof fn lemma_line_len_props(s: Seq<char>)
    ensures
        line_len(s) <= s.len(),
        forall|t: int| 0 <= t < line_len(s) ==> s[t] != '\n',
        line_len(s) < s.len() ==> s[line_len(s) as int] == '\n',
    decreases s.len(),
{
    if s.len() > 0 && s[0] != '\n' {
        lemma_line_len_props(s.skip(1));
        assert forall|t: int| 0 <= t < line_len(s) implies s[t] != '\n' by {
            if t > 0 {
                assert(s[t] == s.skip(1)[t - 1]);
            }
        }
    }
}

/// Counting entries line by line: a text joined to another by a line feed
/// holds the entries of both.
proof fn lemma_count_join(c: Seq<char>, b: Seq<char>)
    ensures
        entry_count(c + seq!['\n'] + b) == entry_count(c) + entry_count(b),
    decreases c.len(),
{
    let s = c + seq!['\n'] + b;
    lemma_line_len_props(c);
    let n = line_len(c);
    assert forall|t: int| 0 <= t < n implies s[t] != '\n' by {
        assert(s[t] == c[t]);
    }
    lemma_line_len_exact(s, n as int);
    assert(s.take(n as int) =~= c.take(n as int));
    if n < c.len() {
        let r = c.skip(n + 1 as int);
        assert(s.skip(n + 1 as int) =~= r + seq!['\n'] + b);
        lemma_count_join(r, b);
    } else {
        assert(s.skip(n + 1 as int) =~= b);
    }
}

/// A text without line feeds is one line.
proof fn lemma_count_single_line(l: Seq<char>)
    requires
        forall|t: int| 0 <= t < l.len() ==> l[t] != '\n',
    ensures
        entry_count(l) == if line_matches(l) {
            1nat
        } else {
            0nat
        },
{
    lemma_line_len_exact(l, l.len() as int);
    assert(l.take(l.len() as int) =~= l);
}

/// The comment line written above the ignore entry.
pub open spec fn comment_line() -> Seq<char> {
    "# Cursor agent state and cache"@
}

/// The line that holds the ignore entry.
pub open spec fn entry_line() -> Seq<char> {
    ".cursor/"@
}

/// The block that puts the entry into `.gitignore`: a comment and the entry,
/// each on a line of its own.
pub open spec fn ignore_block() -> Seq<char> {
    comment_line() + seq!['\n'] + entry_line() + seq!['\n']
}

proof fn lemma_block_has_one_entry()
    ensures
        entry_count(ignore_block()) == 1,
{
    reveal_strlit("# Cursor agent state and cache");
    reveal_strlit(".cursor/");
    let c = comment_line();
    let e = entry_line();
    assert(!is_white_space_spec(c[0]));
    assert(strip_leading(c) == c);
    assert(!same_ignoring_case(c[0], ignore_entry()[0]));
    lemma_count_single_line(c);
    assert(!is_white_space_spec(e[0]));
    assert(strip_leading(e) == e);
    lemma_count_single_line(e);
    let empty = Seq::<char>::empty();
    lemma_count_single_line(empty);
    assert(strip_leading(empty) == empty);
    lemma_count_join(e, empty);
    lemma_count_join(c, e + seq!['\n'] + empty);
    assert(ignore_block() =~= c + seq!['\n'] + (e + seq!['\n'] + empty));
}

/// What reconciling `.gitignore` did.
#[derive(Clone, Copy, Debug, PartialEq, Eq, Structural)]
pub enum GitignoreAction {
    /// There was no `.gitignore`; one was written with the entry.
    Created,
    /// `.gitignore` lacked the entry; it was appended.
    Added,
    /// `.gitignore` held the entry already; nothing was written.
    Skipped,
}

/// What to do to `.gitignore`: the action, and the text to write (`Created`)
/// or to append (`Added`); empty for `Skipped`.
pub struct GitignoreUpdate {
    pub action: GitignoreAction,
    pub text: String,
}

/// The view of an optional string.
pub open spec fn opt_text(o: Option<String>) -> Option<Seq<char>> {
    match o {
        Some(s) => Some(s@),
        None => None,
    }
}

/// The action taken on a `.gitignore` with the given content, or on none.
pub open spec fn gitignore_action_spec(existing: Option<Seq<char>>) -> GitignoreAction {
    match existing {
        None => GitignoreAction::Created,
        Some(c) => if entry_count(c) > 0 {
            GitignoreAction::Skipped
        } else {
            GitignoreAction::Added
        },
    }
}

/// The text written (on `Created`) or appended (on `Added`).
pub open spec fn gitignore_text_spec(existing: Option<Seq<char>>) -> Seq<char> {
    match gitignore_action_spec(existing) {
        GitignoreAction::Created => ignore_block(),
        GitignoreAction::Added => seq!['\n'] + ignore_block(),
        GitignoreAction::Skipped => seq![],
    }
}

/// The content of `.gitignore` once the update is applied.
pub open spec fn gitignore_after(existing: Option<Seq<char>>) -> Seq<char> {
    match existing {
        None => gitignore_text_spec(existing),
        Some(c) => c + gitignore_text_spec(existing),
    }
}

/// Decides how to bring the ignore entry into `.gitignore`, given its content
/// or `None` where there is no such file.
pub fn reconcile_gitignore(existing: &Option<String>) -> (r: GitignoreUpdate)
    ensures
        r.action == gitignore_action_spec(opt_text(*existing)),
        r.text@ == gitignore_text_spec(opt_text(*existing)),
{
    proof {
        reveal_strlit("\n");
    }
    let block = String::from_str("# Cursor agent state and cache").concat("\n").concat(
        ".cursor/",
    ).concat("\n");
    match existing {
        None => GitignoreUpdate { action: GitignoreAction::Created, text: block },
        Some(c) => {
            if has_ignore_entry(c.as_str()) {
                GitignoreUpdate { action: GitignoreAction::Skipped, text: String::new() }
            } else {
                let text = String::from_str("\n").concat(block.as_str());
                GitignoreUpdate { action: GitignoreAction::Added, text }
            }
        },
    }
}

/// Reconciling `.gitignore` is idempotent. A missing file is created and a
/// file without the entry has it added; either way the result holds the entry
/// exactly once, and reconciling that result again skips and writes nothing.
/// A file that holds the entry is skipped and left as it is.
pub proof fn lemma_gitignore_idempotent(existing: Option<Seq<char>>)
    ensures
        existing is None ==> gitignore_action_spec(existing) == GitignoreAction::Created,
        existing is Some && entry_count(existing->0) == 0 ==> gitignore_action_spec(existing)
            == GitignoreAction::Added,
        existing is Some && entry_count(existing->0) > 0 ==> gitignore_action_spec(existing)
            == GitignoreAction::Skipped && gitignore_after(existing) == existing->0,
        gitignore_action_spec(existing) != GitignoreAction::Skipped ==> entry_count(
            gitignore_after(existing),
        ) == 1,
        gitignore_action_spec(Some(gitignore_after(existing))) == GitignoreAction::Skipped,
        gitignore_after(Some(gitignore_after(existing))) == gitignore_after(existing),
{
    lemma_block_has_one_entry();
    match existing {
        None => {},
        Some(c) => {
            if entry_count(c) == 0 {
                lemma_count_join(c, ignore_block());
                assert(c + (seq!['\n'] + ignore_block()) =~= c + seq!['\n'] + ignore_block());
            } else {
                assert(c + Seq::<char>::empty() =~= c);
            }
        },
    }
    let after = gitignore_after(existing);
    assert(after + Seq::<char>::empty() =~= after);
}

} // verus!
