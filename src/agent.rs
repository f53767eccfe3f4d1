use vstd::prelude::*;

verus! {

/// What to do about `AGENT.md`.
#[derive(Clone, Copy, Debug, PartialEq, Eq, Structural)]
pub enum AgentStep {
    /// Leave it as it is.
    Leave,
    /// Write it from the template.
    Write,
    /// It was asked for, but there is no template: warn.
    WarnNoTemplate,
}

/// `AGENT.md` is written unless switched off, where it is missing or was asked
/// for, and only from an existing template.
pub open spec fn agent_step_spec(
    skip_agent: bool,
    with_agent: bool,
    agent_exists: bool,
    template_exists: bool,
) -> AgentStep {
    if skip_agent || !(with_agent || !agent_exists) {
        AgentStep::Leave
    } else if template_exists {
        AgentStep::Write
    } else if with_agent {
        AgentStep::WarnNoTemplate
    } else {
        AgentStep::Leave
    }
}

/// Decides what to do about `AGENT.md`.
pub fn plan_agent(skip_agent: bool, with_agent: bool, agent_exists: bool, template_exists: bool) -> (r:
    AgentStep)
    ensures
        r == agent_step_spec(skip_agent, with_agent, agent_exists, template_exists),
{
    if skip_agent || !(with_agent || !agent_exists) {
        AgentStep::Leave
    } else if template_exists {
        AgentStep::Write
    } else if with_agent {
        AgentStep::WarnNoTemplate
    } else {
        AgentStep::Leave
    }
}

/// `s` with every occurrence of the non-empty `pat` replaced by `rep`, taken
/// from left to right without overlap.
pub open spec fn replace_all(s: Seq<char>, pat: Seq<char>, rep: Seq<char>) -> Seq<char>
    decreases s.len(),
{
    if s.len() == 0 || pat.len() == 0 {
        s
    } else if s.len() >= pat.len() && s.take(pat.len() as int) == pat {
        rep + replace_all(s.skip(pat.len() as int), pat, rep)
    } else {
        seq![s[0]] + replace_all(s.skip(1), pat, rep)
    }
}

/// The placeholder of the project name in the agent template.
pub open spec fn project_placeholder() -> Seq<char> {
    "{{PROJECT_NAME}}"@
}

/// The agent template with the project name put in for its placeholder.
pub fn fill_project_name(template: &str, project: &str) -> (r: String)
    ensures
        r@ == replace_all(template@, project_placeholder(), project@),
{
    let pat = "{{PROJECT_NAME}}";
    proof {
        reveal_strlit("{{PROJECT_NAME}}");
    }
    let ghost s = template@;
    let ghost p = pat@;
    let n = template.unicode_len();
    let m = pat.unicode_len();
    let mut out = String::new();
    let mut i: usize = 0;
    assert(s.skip(0) =~= s);
    while i < n
        invariant
            n == s.len(),
            s == template@,
            p == pat@,
            m == p.len(),
            m == 16,
            i <= n,
            out@ + replace_all(s.skip(i as int), p, project@) == replace_all(s, p, project@),
        decreases n - i,
    {
        let ghost rest = s.skip(i as int);
        let mut hit = n - i >= m;
        let mut j: usize = 0;
        while hit && j < m
            invariant
                n == s.len(),
                s == template@,
                p == pat@,
                m == p.len(),
                i < n,
                j <= m,
                rest == s.skip(i as int),
                hit ==> n - i >= m,
                hit ==> forall|t: int| 0 <= t < j ==> s[i + t] == p[t],
                !hit ==> !(rest.len() >= p.len() && rest.take(p.len() as int) == p),
            decreases m - j,
        {
            if template.get_char(i + j) != pat.get_char(j) {
                proof {
                    assert(rest.take(p.len() as int)[j as int] == s[i + j]);
                }
                hit = false;
            }
            j = j + 1;
        }
        let ghost before = out@;
        if hit {
            proof {
                assert(rest.take(p.len() as int) =~= p);
                assert(rest.skip(m as int) =~= s.skip(i + m));
                assert(before + (project@ + replace_all(s.skip(i + m), p, project@)) =~= (before
                    + project@) + replace_all(s.skip(i + m), p, project@));
            }
            out.append(project);
            i = i + m;
        } else {
            let one = template.substring_char(i, i + 1);
            proof {
                assert(one@ =~= seq![rest[0]]);
                assert(rest.skip(1) =~= s.skip(i + 1));
                assert(before + (seq![rest[0]] + replace_all(s.skip(i + 1), p, project@)) =~= (
                before + seq![rest[0]]) + replace_all(s.skip(i + 1), p, project@));
            }
            out.append(one);
            i = i + 1;
        }
    }
    proof {
        assert(out@ + replace_all(s.skip(n as int), p, project@) == out@ + Seq::<char>::empty()) by {
            assert(s.skip(n as int) =~= Seq::<char>::empty());
        }
        assert(out@ + Seq::<char>::empty() =~= out@);
    }
    out
}

} // verus!
