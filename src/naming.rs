use vstd::prelude::*;
use vstd::string::StringExecFns;

use crate::agent::{name_str, AgentName};
use crate::text::{chars_of, lower_of, lowercase, string_of};

verus! {

/// Longest slug kept in a branch name, in characters.
pub const SLUG_MAX: usize = 40;

/// Characters of a work item id kept in a branch name.
pub const SHORT_ID_LEN: usize = 8;

pub open spec fn is_ascii_alnum(c: char) -> bool {
    ('a' <= c && c <= 'z') || ('A' <= c && c <= 'Z') || ('0' <= c && c <= '9')
}

/// A character as it stands in a slug.
pub open spec fn slug_char(c: char) -> char {
    if is_ascii_alnum(c) {
        c
    } else {
        '-'
    }
}

pub open spec fn dashed(s: Seq<char>) -> Seq<char> {
    s.map_values(|c: char| slug_char(c))
}

pub open spec fn strip_leading_dashes(s: Seq<char>) -> Seq<char>
    decreases s.len(),
{
    if s.len() > 0 && s[0] == '-' {
        strip_leading_dashes(s.drop_first())
    } else {
        s
    }
}

pub open spec fn strip_trailing_dashes(s: Seq<char>) -> Seq<char>
    decreases s.len(),
{
    if s.len() > 0 && s.last() == '-' {
        strip_trailing_dashes(s.drop_last())
    } else {
        s
    }
}

/// The first `n` characters of `s`, or all of it when shorter.
pub open spec fn take_chars(s: Seq<char>, n: nat) -> Seq<char> {
    if s.len() > n {
        s.subrange(0, n as int)
    } else {
        s
    }
}

/// The slug of an already lowercased title.
pub open spec fn slug_of(lowered: Seq<char>) -> Seq<char> {
    take_chars(strip_trailing_dashes(strip_leading_dashes(dashed(lowered))), SLUG_MAX as nat)
}

/// Index of the last '/' in `s`, or -1 when there is none.
pub open spec fn last_slash(s: Seq<char>) -> int
    decreases s.len(),
{
    if s.len() == 0 {
        -1
    } else if s.last() == '/' {
        s.len() - 1
    } else {
        last_slash(s.drop_last())
    }
}

/// The directory that holds `path`: everything before its last '/', or the
/// whole path when it holds none.
pub open spec fn parent_dir(path: Seq<char>) -> Seq<char> {
    if last_slash(path) >= 0 {
        path.subrange(0, last_slash(path))
    } else {
        path
    }
}

pub open spec fn branch_name_of(agent: AgentName, item_id: Seq<char>, title: Seq<char>) -> Seq<char> {
    "agent/"@ + name_str(agent) + "/"@ + take_chars(item_id, SHORT_ID_LEN as nat) + "-"@ + slug_of(
        lower_of(title),
    )
}

pub open spec fn worktree_path_of(repo_root: Seq<char>, agent: AgentName) -> Seq<char> {
    parent_dir(repo_root) + "/agent-"@ + name_str(agent)
}

proof fn lemma_last_slash_bound(s: Seq<char>)
    ensures
        -1 <= last_slash(s) < s.len(),
    decreases s.len(),
{
    if s.len() > 0 && s.last() != '/' {
        lemma_last_slash_bound(s.drop_last());
    }
}

fn is_ascii_alnum_exec(c: char) -> (r: bool)
    ensures
        r == is_ascii_alnum(c),
{
    ('a' <= c && c <= 'z') || ('A' <= c && c <= 'Z') || ('0' <= c && c <= '9')
}

/// Slug of a title that is already lowercase: every character that is not an
/// ASCII letter or digit becomes '-', dashes at both ends are trimmed, and at
/// most the first 40 characters are kept.
pub fn slugify_lowered(s: &str) -> (r: String)
    ensures
        r@ == slug_of(s@),
{
    let v = chars_of(s);
    let n = v.len();
    let mut m: Vec<char> = Vec::new();
    let mut i: usize = 0;
    while i < n
        invariant
            n == v@.len(),
            v@ == s@,
            i <= n,
            m@ == dashed(v@.subrange(0, i as int)),
        decreases n - i,
    {
        let c = v[i];
        if is_ascii_alnum_exec(c) {
            m.push(c);
        } else {
            m.push('-');
        }
        assert(v@.subrange(0, i + 1) =~= v@.subrange(0, i as int).push(c));
        assert(dashed(v@.subrange(0, i + 1)) =~= dashed(v@.subrange(0, i as int)).push(slug_char(c)));
        i += 1;
    }
    assert(v@.subrange(0, n as int) =~= v@);
    let ghost d = m@;
    assert(d.subrange(0, n as int) =~= d);
    let mut lo: usize = 0;
    while lo < n && m[lo] == '-'
        invariant
            m@ == d,
            d.len() == n,
            lo <= n,
            strip_leading_dashes(d.subrange(lo as int, n as int)) == strip_leading_dashes(d),
        decreases n - lo,
    {
        assert(d.subrange(lo as int, n as int).drop_first() =~= d.subrange(lo + 1, n as int));
        lo += 1;
    }
    assert(strip_leading_dashes(d.subrange(lo as int, n as int)) == d.subrange(lo as int, n as int));
    let mut hi: usize = n;
    while hi > lo && m[hi - 1] == '-'
        invariant
            m@ == d,
            d.len() == n,
            lo <= hi <= n,
            strip_trailing_dashes(d.subrange(lo as int, hi as int)) == strip_trailing_dashes(
                d.subrange(lo as int, n as int),
            ),
        decreases hi - lo,
    {
        assert(d.subrange(lo as int, hi as int).drop_last() =~= d.subrange(lo as int, hi - 1));
        hi -= 1;
    }
    assert(strip_trailing_dashes(d.subrange(lo as int, hi as int)) == d.subrange(lo as int, hi as int));
    let end = if hi - lo > SLUG_MAX {
        lo + SLUG_MAX
    } else {
        hi
    };
    if hi - lo > SLUG_MAX {
        assert(d.subrange(lo as int, hi as int).subrange(0, SLUG_MAX as int) =~= d.subrange(
            lo as int,
            lo + SLUG_MAX,
        ));
    }
    string_of(&m, lo, end)
}

/// Slug of a work item title: lowercased, then as in `slugify_lowered`.
pub fn slugify(title: &str) -> (r: String)
    ensures
        r@ == slug_of(lower_of(title@)),
{
    let lowered = lowercase(title);
    slugify_lowered(lowered.as_str())
}

/// The branch on which an agent works on an item:
/// `agent/{agent}/{first 8 characters of the id}-{slug of the title}`.
pub fn branch_name(agent: AgentName, item_id: &str, title: &str) -> (r: String)
    ensures
        r@ == branch_name_of(agent, item_id@, title@),
{
    let slug = slugify(title);
    let id = chars_of(item_id);
    let short = if id.len() > SHORT_ID_LEN {
        SHORT_ID_LEN
    } else {
        id.len()
    };
    let short_id = string_of(&id, 0, short);
    assert(short_id@ =~= take_chars(item_id@, SHORT_ID_LEN as nat));
    let mut r = String::from_str("agent/");
    r.append(agent.as_str());
    r.append("/");
    r.append(short_id.as_str());
    r.append("-");
    r.append(slug.as_str());
    r
}

/// The agent's worktree: a sibling of the repository checkout named
/// `agent-{agent}`.
pub fn worktree_path(repo_root: &str, agent: AgentName) -> (r: String)
    ensures
        r@ == worktree_path_of(repo_root@, agent),
{
    let v = chars_of(repo_root);
    let n = v.len();
    let mut i: usize = n;
    assert(v@.subrange(0, n as int) =~= v@);
    while i > 0 && v[i - 1] != '/'
        invariant
            v@ == repo_root@,
            n == v@.len(),
            i <= n,
            last_slash(v@.subrange(0, i as int)) == last_slash(v@),
        decreases i,
    {
        assert(v@.subrange(0, i as int).drop_last() =~= v@.subrange(0, i - 1));
        i -= 1;
    }
    assert(v@.subrange(0, n as int) =~= v@);
    let mut r = if i > 0 {
        string_of(&v, 0, i - 1)
    } else {
        string_of(&v, 0, n)
    };
    r.append("/agent-");
    r.append(agent.as_str());
    r
}

} // verus!
