//! Executable Resolver: locates the worker's entrypoint artifact and the
//! interpreter to run it with. The resolver itself is a pure function of its
//! inputs: the caller's explicit override, the process-wide environment
//! override, and the filesystem answers for each candidate path. The caller
//! reads the environment and tests the filesystem, and hands the plain values
//! in; every decision is made here.
//!
//! Paths are modeled as plain strings with `/` as the separator. The parent
//! of a path is everything before its last separator (`/a/b` -> `/a`,
//! `/a` -> `/`, `a` -> the empty string, `/` and the empty string have none).

use vstd::prelude::*;

verus! {

use crate::errors::ResolutionError;
use crate::text::trim_str;
use crate::text::trimmed;
use crate::text::str_eq;
use vstd::string::StrSliceExecFns;
use vstd::string::StringExecFns;

/// How many ancestor directories (including the start point itself) the
/// discovery sweep tests from each start point.
pub const DISCOVERY_DEPTH: usize = 8;

/// Index of the last `/` in `s`, or -1 if there is none.
pub open spec fn last_slash(s: Seq<char>) -> int
    decreases s.len(),
{
    if s.len() == 0 {
        -1
    } else if s[s.len() - 1] == '/' {
        s.len() - 1
    } else {
        last_slash(s.drop_last())
    }
}

/// The directory containing `s`, if any.
pub open spec fn parent_dir(s: Seq<char>) -> Option<Seq<char>> {
    if s.len() == 0 {
        Option::None
    } else {
        let k = last_slash(s);
        if k == -1 {
            Option::Some(Seq::empty())
        } else if k == 0 {
            if s.len() == 1 {
                Option::None
            } else {
                Option::Some(s.subrange(0, 1))
            }
        } else {
            Option::Some(s.subrange(0, k))
        }
    }
}

/// The expected build-output artifact, relative to an ancestor directory.
pub open spec fn artifact_rel() -> Seq<char> {
    "dist/cli.js"@
}

/// `dir` joined with the relative artifact path.
pub open spec fn join_artifact(dir: Seq<char>) -> Seq<char> {
    if dir.len() == 0 {
        artifact_rel()
    } else if dir[dir.len() - 1] == '/' {
        dir + artifact_rel()
    } else {
        dir + seq!['/'] + artifact_rel()
    }
}

/// The candidate artifact paths for `base` and its ancestors, nearest first,
/// at most `n` of them.
pub open spec fn candidate_paths(base: Seq<char>, n: nat) -> Seq<Seq<char>>
    decreases n,
{
    if n == 0 {
        Seq::empty()
    } else {
        seq![join_artifact(base)] + (match parent_dir(base) {
            Option::Some(p) => candidate_paths(p, (n - 1) as nat),
            Option::None => Seq::empty(),
        })
    }
}

/// One step of the de-duplicating accumulation: candidates already in `seen`
/// are dropped, new ones are appended to both `out` and `seen`, in order.
pub open spec fn dedup_push(cands: Seq<Seq<char>>, out: Seq<Seq<char>>, seen: Seq<Seq<char>>) -> (
    Seq<Seq<char>>,
    Seq<Seq<char>>,
)
    decreases cands.len(),
{
    if cands.len() == 0 {
        (out, seen)
    } else if seen.contains(cands[0]) {
        dedup_push(cands.drop_first(), out, seen)
    } else {
        dedup_push(cands.drop_first(), out.push(cands[0]), seen.push(cands[0]))
    }
}

/// Whether `v` holds a string whose characters are `s`.
fn contains_str(v: &Vec<String>, s: &str) -> (r: bool)
    ensures
        r == v.deep_view().contains(s@),
{
    let mut i: usize = 0;
    while i < v.len()
        invariant
            i <= v.len(),
            v.deep_view().len() == v.len(),
            forall|j: int| 0 <= j < v@.len() ==> v.deep_view()[j] == v@[j]@,
            forall|j: int| 0 <= j < i ==> v.deep_view()[j] != s@,
        decreases v.len() - i,
    {
        if str_eq(v[i].as_str(), s) {
            proof {
                assert(v.deep_view()[i as int] == s@);
            }
            return true;
        }
        i += 1;
    }
    proof {
        if v.deep_view().contains(s@) {
            let j = choose|j: int| 0 <= j < v.deep_view().len() && v.deep_view()[j] == s@;
            assert(v.deep_view()[j] == s@);
        }
    }
    false
}

/// The directory containing `s`, if any.
pub fn parent_dir_str(s: &str) -> (r: Option<String>)
    ensures
        r is Some <==> parent_dir(s@) is Some,
        r is Some ==> r.unwrap()@ == parent_dir(s@).unwrap(),
{
    let len = s.unicode_len();
    if len == 0 {
        return None;
    }
    proof {
        assert(s@.subrange(0, len as int) =~= s@);
    }
    let mut j: usize = len;
    while j > 0 && s.get_char(j - 1) != '/'
        invariant
            j <= len,
            len == s@.len(),
            last_slash(s@) == last_slash(s@.subrange(0, j as int)),
        decreases j,
    {
        proof {
            assert(s@.subrange(0, j as int).drop_last() =~= s@.subrange(0, j as int - 1));
        }
        j -= 1;
    }
    if j == 0 {
        proof {
            assert(s@.subrange(0, 0) =~= Seq::<char>::empty());
            assert(last_slash(s@) == -1);
        }
        return Some(String::new());
    }
    proof {
        assert(s@.subrange(0, j as int).last() == s@[j as int - 1]);
        assert(last_slash(s@.subrange(0, j as int)) == j - 1);
    }
    if j == 1 {
        if len == 1 {
            return None;
        }
        let root = s.substring_char(0, 1);
        return Some(root.to_owned());
    }
    let p = s.substring_char(0, j - 1);
    Some(p.to_owned())
}

/// `dir` joined with the relative artifact path.
fn join_artifact_str(dir: &str) -> (r: String)
    ensures
        r@ == join_artifact(dir@),
{
    let len = dir.unicode_len();
    if len == 0 {
        return String::from_str("dist/cli.js");
    }
    let mut out = dir.to_owned();
    if dir.get_char(len - 1) != '/' {
        out.append("/");
        proof {
            reveal_strlit("/");
            assert("/"@ =~= seq!['/']);
        }
    }
    out.append("dist/cli.js");
    proof {
        if dir@[dir@.len() - 1] == '/' {
            assert(out@ =~= join_artifact(dir@));
        } else {
            assert(out@ =~= join_artifact(dir@));
        }
    }
    out
}

/// Append the artifact candidates for `base` and its ancestors (bounded to
/// `DISCOVERY_DEPTH` levels) to `out`, skipping any already in `seen` and
/// recording new ones there.
pub fn push_candidates(base: &str, out: &mut Vec<String>, seen: &mut Vec<String>)
    ensures
        (final(out).deep_view(), final(seen).deep_view()) == dedup_push(
            candidate_paths(base@, DISCOVERY_DEPTH as nat),
            old(out).deep_view(),
            old(seen).deep_view(),
        ),
{
    let mut cur: String = base.to_owned();
    let mut more: bool = true;
    let mut i: usize = 0;
    while i < DISCOVERY_DEPTH && more
        invariant
            i <= DISCOVERY_DEPTH,
            dedup_push(
                candidate_paths(base@, DISCOVERY_DEPTH as nat),
                old(out).deep_view(),
                old(seen).deep_view(),
            ) == if more {
                dedup_push(
                    candidate_paths(cur@, (DISCOVERY_DEPTH - i) as nat),
                    out.deep_view(),
                    seen.deep_view(),
                )
            } else {
                (out.deep_view(), seen.deep_view())
            },
        decreases DISCOVERY_DEPTH - i,
    {
        let ghost n: nat = (DISCOVERY_DEPTH - i) as nat;
        let ghost cands = candidate_paths(cur@, n);
        let ghost rest = match parent_dir(cur@) {
            Option::Some(p) => candidate_paths(p, (n - 1) as nat),
            Option::None => Seq::<Seq<char>>::empty(),
        };
        let cand = join_artifact_str(cur.as_str());
        proof {
            assert(cands == seq![join_artifact(cur@)] + rest);
            assert(cands[0] == join_artifact(cur@));
            assert(cands.drop_first() =~= rest);
        }
        let ghost out0 = out.deep_view();
        let ghost seen0 = seen.deep_view();
        let is_dup = contains_str(seen, cand.as_str());
        if !is_dup {
            let cand2 = cand.clone();
            proof {
                assert(cand2@ == cand@);
            }
            out.push(cand);
            seen.push(cand2);
            proof {
                assert(out.deep_view() =~= out0.push(cands[0]));
                assert(seen.deep_view() =~= seen0.push(cands[0]));
            }
        }
        proof {
            if is_dup {
                assert(dedup_push(cands, out0, seen0) == dedup_push(rest, out0, seen0));
            } else {
                assert(dedup_push(cands, out0, seen0) == dedup_push(
                    rest,
                    out0.push(cands[0]),
                    seen0.push(cands[0]),
                ));
            }
        }
        match parent_dir_str(cur.as_str()) {
            Some(p) => {
                cur = p;
            },
            None => {
                more = false;
            },
        }
        i += 1;
    }
    proof {
        if more {
            assert(candidate_paths(cur@, 0) =~= Seq::<Seq<char>>::empty());
        }
    }
}

/// Name of the environment variable that overrides the interpreter.
pub fn node_bin_env_var() -> (r: &'static str)
    ensures
        r@ == "AGENTCOMPANY_NODE_BIN"@,
{
    "AGENTCOMPANY_NODE_BIN"
}

/// Name of the environment variable that overrides the entrypoint artifact.
pub fn cli_path_env_var() -> (r: &'static str)
    ensures
        r@ == "AGENTCOMPANY_CLI_PATH"@,
{
    "AGENTCOMPANY_CLI_PATH"
}

/// The interpreter to run: the explicit override if non-empty after trimming,
/// else the environment override if non-empty after trimming, else `node`.
pub open spec fn node_bin_spec(explicit: Option<Seq<char>>, env_value: Option<Seq<char>>) -> Seq<
    char,
> {
    if explicit is Some && trimmed(explicit.unwrap()).len() > 0 {
        trimmed(explicit.unwrap())
    } else if env_value is Some && trimmed(env_value.unwrap()).len() > 0 {
        trimmed(env_value.unwrap())
    } else {
        "node"@
    }
}

/// Resolve the interpreter. `env_value` is the value of the interpreter
/// override variable, if set; the caller reads it, the decision is made here.
pub fn resolve_node_bin(explicit: Option<String>, env_value: Option<String>) -> (r: String)
    ensures
        r@ == node_bin_spec(explicit.deep_view(), env_value.deep_view()),
{
    if let Some(bin) = explicit {
        let t = trim_str(bin.as_str());
        if t.unicode_len() > 0 {
            return t;
        }
    }
    if let Some(bin) = env_value {
        let t = trim_str(bin.as_str());
        if t.unicode_len() > 0 {
            return t;
        }
    }
    String::from_str("node")
}

/// Where the entrypoint artifact is to be looked for: one explicitly given
/// path, one path from the environment override, or the discovery sweep's
/// candidate list.
pub enum CliPathQuery {
    Explicit(String),
    FromEnv(String),
    Discover(Vec<String>),
}

/// The filesystem paths a query asks about, in order.
pub open spec fn query_paths(q: CliPathQuery) -> Seq<Seq<char>> {
    match q {
        CliPathQuery::Explicit(p) => seq![p@],
        CliPathQuery::FromEnv(p) => seq![p@],
        CliPathQuery::Discover(v) => v.deep_view(),
    }
}

/// The discovery sweep's candidate list: the artifact path for each ancestor
/// of the current working directory and of the host executable's directory,
/// in that order, de-duplicated.
pub open spec fn discover_spec(cwd: Option<Seq<char>>, exe_dir: Option<Seq<char>>) -> Seq<
    Seq<char>,
> {
    let first = if cwd is Some {
        dedup_push(
            candidate_paths(cwd.unwrap(), DISCOVERY_DEPTH as nat),
            Seq::empty(),
            Seq::empty(),
        )
    } else {
        (Seq::<Seq<char>>::empty(), Seq::<Seq<char>>::empty())
    };
    if exe_dir is Some {
        dedup_push(candidate_paths(exe_dir.unwrap(), DISCOVERY_DEPTH as nat), first.0, first.1).0
    } else {
        first.0
    }
}

/// Collect the discovery sweep's candidate artifact paths. `cwd` is the
/// current working directory and `exe_dir` the directory holding the host
/// executable, where the caller could determine them.
pub fn discover_cli_candidates(cwd: Option<String>, exe_dir: Option<String>) -> (r: Vec<String>)
    ensures
        r.deep_view() == discover_spec(cwd.deep_view(), exe_dir.deep_view()),
{
    let mut out: Vec<String> = Vec::new();
    let mut seen: Vec<String> = Vec::new();
    proof {
        assert(out.deep_view() =~= Seq::<Seq<char>>::empty());
        assert(seen.deep_view() =~= Seq::<Seq<char>>::empty());
    }
    if let Some(base) = cwd {
        push_candidates(base.as_str(), &mut out, &mut seen);
    }
    if let Some(base) = exe_dir {
        push_candidates(base.as_str(), &mut out, &mut seen);
    }
    out
}

/// Index of the first `true` in `s`, or -1 if there is none.
pub open spec fn first_true(s: Seq<bool>) -> int
    decreases s.len(),
{
    if s.len() == 0 {
        -1
    } else if s[0] {
        0
    } else {
        let t = first_true(s.drop_first());
        if t == -1 {
            -1
        } else {
            t + 1
        }
    }
}

proof fn lemma_first_true_at(s: Seq<bool>, i: int)
    requires
        0 <= i < s.len(),
        s[i],
        forall|j: int| 0 <= j < i ==> !s[j],
    ensures
        first_true(s) == i,
    decreases i,
{
    if i > 0 {
        lemma_first_true_at(s.drop_first(), i - 1);
    }
}

proof fn lemma_first_true_none(s: Seq<bool>)
    requires
        forall|j: int| 0 <= j < s.len() ==> !s[j],
    ensures
        first_true(s) == -1,
    decreases s.len(),
{
    if s.len() > 0 {
        lemma_first_true_none(s.drop_first());
    }
}

/// Decide what the query resolves to, given the filesystem's answer for each
/// path the query asks about: `exists[i]` says whether a file is at the i-th
/// path of the query. An explicit or environment path that is missing is an
/// error naming that path; the discovery sweep takes the first candidate that
/// exists and fails with guidance when none does.
pub fn resolve_cli_path(query: &CliPathQuery, exists: &Vec<bool>) -> (r: Result<
    String,
    ResolutionError,
>)
    requires
        exists@.len() == query_paths(*query).len(),
    ensures
        match *query {
            CliPathQuery::Explicit(p) => if exists@[0] {
                r is Ok && r.unwrap()@ == p@
            } else {
                r matches Err(ResolutionError::ExplicitMissing { path }) && path@ == p@
            },
            CliPathQuery::FromEnv(p) => if exists@[0] {
                r is Ok && r.unwrap()@ == p@
            } else {
                r matches Err(ResolutionError::EnvMissing { path }) && path@ == p@
            },
            CliPathQuery::Discover(c) => if first_true(exists@) == -1 {
                r matches Err(ResolutionError::NotFound)
            } else {
                r is Ok && r.unwrap()@ == c.deep_view()[first_true(exists@)]
            },
        },
{
    match query {
        CliPathQuery::Explicit(p) => {
            if exists[0] {
                Ok(p.clone())
            } else {
                Err(ResolutionError::ExplicitMissing { path: p.clone() })
            }
        },
        CliPathQuery::FromEnv(p) => {
            if exists[0] {
                Ok(p.clone())
            } else {
                Err(ResolutionError::EnvMissing { path: p.clone() })
            }
        },
        CliPathQuery::Discover(c) => {
            let mut i: usize = 0;
            while i < c.len()
                invariant
                    *query matches CliPathQuery::Discover(cc) && cc@ == c@,
                    i <= c.len(),
                    exists@.len() == c.deep_view().len(),
                    c.deep_view().len() == c@.len(),
                    forall|j: int| 0 <= j < i ==> !exists@[j],
                decreases c.len() - i,
            {
                if exists[i] {
                    let found = c[i].clone();
                    proof {
                        lemma_first_true_at(exists@, i as int);
                        assert(c.deep_view()[i as int] == c@[i as int]@);
                        assert(found@ == c.deep_view()[first_true(exists@)]);
                    }
                    return Ok(found);
                }
                i += 1;
            }
            proof {
                lemma_first_true_none(exists@);
            }
            Err(ResolutionError::NotFound)
        },
    }
}

/// Build the query for the entrypoint artifact: the caller's explicit path
/// when non-empty after trimming, else the environment override when
/// non-empty after trimming, else the discovery sweep.
pub fn cli_path_query(
    explicit: Option<String>,
    env_value: Option<String>,
    cwd: Option<String>,
    exe_dir: Option<String>,
) -> (r: CliPathQuery)
    ensures
        ({
            let ex = explicit.deep_view();
            let ev = env_value.deep_view();
            if ex is Some && trimmed(ex.unwrap()).len() > 0 {
                r matches CliPathQuery::Explicit(p) && p@ == trimmed(ex.unwrap())
            } else if ev is Some && trimmed(ev.unwrap()).len() > 0 {
                r matches CliPathQuery::FromEnv(p) && p@ == trimmed(ev.unwrap())
            } else {
                r matches CliPathQuery::Discover(c) && c.deep_view() == discover_spec(
                    cwd.deep_view(),
                    exe_dir.deep_view(),
                )
            }
        }),
{
    if let Some(raw) = explicit {
        let t = trim_str(raw.as_str());
        if t.unicode_len() > 0 {
            return CliPathQuery::Explicit(t);
        }
    }
    if let Some(raw) = env_value {
        let t = trim_str(raw.as_str());
        if t.unicode_len() > 0 {
            return CliPathQuery::FromEnv(t);
        }
    }
    CliPathQuery::Discover(discover_cli_candidates(cwd, exe_dir))
}

} // verus!
