use vstd::prelude::*;
use crate::gitignore::{is_white_space, is_white_space_spec, lemma_strip_exact, opt_text, strip_leading};

verus! {

/// The text with its trailing white space removed.
pub open spec fn strip_trailing(l: Seq<char>) -> Seq<char>
    decreases l.len(),
{
    if l.len() > 0 && is_white_space_spec(l.last()) {
        strip_trailing(l.drop_last())
    } else {
        l
    }
}

/// The text with white space removed at both ends.
pub open spec fn trimmed(s: Seq<char>) -> Seq<char> {
    strip_trailing(strip_leading(s))
}

/// The last `/`-separated segment of `t`: all of it where it holds no `/`.
pub open spec fn last_segment(t: Seq<char>) -> Seq<char>
    decreases t.len(),
{
    if t.len() == 0 {
        t
    } else if t.last() == '/' {
        seq![]
    } else {
        last_segment(t.drop_last()).push(t.last())
    }
}

/// The suffix of a repository URL's last segment.
pub open spec fn git_suffix() -> Seq<char> {
    seq!['.', 'g', 'i', 't']
}

/// The project named by a remote URL: its trimmed last segment, where that
/// ends in `.git`, without the suffix.
pub open spec fn name_from_remote_spec(url: Seq<char>) -> Option<Seq<char>> {
    let seg = last_segment(trimmed(url));
    if seg.len() >= 4 && seg.subrange(seg.len() - 4, seg.len() as int) == git_suffix() {
        Some(seg.take(seg.len() - 4))
    } else {
        None
    }
}

proof fn lemma_strip_trailing_exact(l: Seq<char>, m: int)
    requires
        0 <= m <= l.len(),
        forall|t: int| m <= t < l.len() ==> is_white_space_spec(l[t]),
        m == 0 || !is_white_space_spec(l[m - 1]),
    ensures
        strip_trailing(l) == l.take(m),
    decreases l.len() - m,
{
    if m < l.len() {
        lemma_strip_trailing_exact(l.drop_last(), m);
        assert(l.drop_last().take(m) =~= l.take(m));
    } else {
        assert(l.take(m) =~= l);
    }
}

proof fn lemma_last_segment_exact(l: Seq<char>, m: int)
    requires
        0 <= m <= l.len(),
        forall|t: int| m <= t < l.len() ==> l[t] != '/',
        m == 0 || l[m - 1] == '/',
    ensures
        last_segment(l) == l.skip(m),
    decreases l.len() - m,
{
    if m < l.len() {
        lemma_last_segment_exact(l.drop_last(), m);
        assert(l.drop_last().skip(m).push(l.last()) =~= l.skip(m));
    } else if m > 0 {
        assert(l.skip(m) =~= Seq::<char>::empty());
    } else {
        assert(l.skip(0) =~= l);
    }
}

/// The project name that a remote URL gives, if any.
pub fn name_from_remote(url: &str) -> (r: Option<String>)
    ensures
        opt_text(r) == name_from_remote_spec(url@),
{
    let ghost s = url@;
    let n = url.unicode_len();
    let mut a: usize = 0;
    while a < n && is_white_space(url.get_char(a))
        invariant
            n == s.len(),
            s == url@,
            a <= n,
            forall|t: int| 0 <= t < a ==> is_white_space_spec(s[t]),
        decreases n - a,
    {
        a = a + 1;
    }
    proof {
        lemma_strip_exact(s, a as int);
    }
    let mut b: usize = n;
    while b > a && is_white_space(url.get_char(b - 1))
        invariant
            n == s.len(),
            s == url@,
            a <= b <= n,
            forall|t: int| b <= t < n ==> is_white_space_spec(s[t]),
        decreases b - a,
    {
        b = b - 1;
    }
    proof {
        lemma_strip_trailing_exact(s.skip(a as int), b - a);
        assert(s.skip(a as int).take(b - a) =~= s.subrange(a as int, b as int));
    }
    let mut c: usize = b;
    while c > a && url.get_char(c - 1) != '/'
        invariant
            n == s.len(),
            s == url@,
            a <= c <= b <= n,
            forall|t: int| c <= t < b ==> s[t] != '/',
        decreases c - a,
    {
        c = c - 1;
    }
    let ghost t = s.subrange(a as int, b as int);
    proof {
        lemma_last_segment_exact(t, c - a);
        assert(t.skip(c - a) =~= s.subrange(c as int, b as int));
    }
    if b - c >= 4 && url.get_char(b - 4) == '.' && url.get_char(b - 3) == 'g' && url.get_char(b - 2)
        == 'i' && url.get_char(b - 1) == 't' {
        proof {
            let seg = s.subrange(c as int, b as int);
            assert(seg.subrange(seg.len() - 4, seg.len() as int) =~= git_suffix());
            assert(seg.take(seg.len() - 4) =~= s.subrange(c as int, b - 4));
        }
        Some(String::from_str(url.substring_char(c, b - 4)))
    } else {
        proof {
            let seg = s.subrange(c as int, b as int);
            if seg.len() >= 4 && seg.subrange(seg.len() - 4, seg.len() as int) == git_suffix() {
                assert(seg.subrange(seg.len() - 4, seg.len() as int)[0] == s[b - 4]);
                assert(seg.subrange(seg.len() - 4, seg.len() as int)[1] == s[b - 3]);
                assert(seg.subrange(seg.len() - 4, seg.len() as int)[2] == s[b - 2]);
                assert(seg.subrange(seg.len() - 4, seg.len() as int)[3] == s[b - 1]);
            }
        }
        None
    }
}

/// The project name: the one the remote URL gives, else the name of the
/// working directory, else `project`.
pub open spec fn project_name_spec(remote: Option<Seq<char>>, dir_name: Option<Seq<char>>) -> Seq<
    char,
> {
    match remote {
        Some(u) if name_from_remote_spec(u) is Some => name_from_remote_spec(u)->0,
        _ => match dir_name {
            Some(d) => d,
            None => "project"@,
        },
    }
}

/// Picks the project name from the URL of the `origin` remote (where reading
/// it succeeded) and from the working directory's name (where it has one).
pub fn detect_project_name(remote: &Option<String>, dir_name: &Option<String>) -> (r: String)
    ensures
        r@ == project_name_spec(opt_text(*remote), opt_text(*dir_name)),
{
    if let Some(u) = remote {
        if let Some(name) = name_from_remote(u.as_str()) {
            return name;
        }
    }
    match dir_name {
        Some(d) => d.clone(),
        None => String::from_str("project"),
    }
}

} // verus!
