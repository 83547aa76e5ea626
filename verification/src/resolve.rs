//! Resolution of a possibly-relative user path against an ordered list of
//! candidate root directories.
//!
//! The resolver never touches the filesystem itself: the caller probes the
//! joined candidate paths and hands the answers in as a vector of booleans,
//! one per root, so the heuristic is a pure function of its arguments.

use vstd::prelude::*;
use vstd::string::StrSliceExecFns;
use vstd::string::StringExecFns;

verus! {

/// A path separator: both styles are accepted, since the tool drives a
/// Windows-installed interpreter but may itself be built anywhere.
pub open spec fn is_separator(c: char) -> bool {
    c == '/' || c == '\\'
}

/// An ASCII letter, as a drive designator.
pub open spec fn is_drive_letter(c: char) -> bool {
    (0x41 <= c as u32 && c as u32 <= 0x5a) || (0x61 <= c as u32 && c as u32 <= 0x7a)
}

/// The resolver's notion of an absolute path: one that starts at a root
/// (`/...` or `\...`) or at a drive (`C:\...` or `C:/...`).
pub open spec fn is_absolute_path(s: Seq<char>) -> bool {
    ||| (s.len() >= 1 && is_separator(s[0]))
    ||| (s.len() >= 3 && is_drive_letter(s[0]) && s[1] == ':' && is_separator(s[2]))
}

/// Decides [`is_absolute_path`] on a real string.
pub fn path_is_absolute(s: &str) -> (r: bool)
    ensures
        r == is_absolute_path(s@),
{
    let n = s.unicode_len();
    if n >= 1 {
        let c0 = s.get_char(0);
        if c0 == '/' || c0 == '\\' {
            return true;
        }
        if n >= 3 {
            let u0 = c0 as u32;
            if (0x41 <= u0 && u0 <= 0x5a) || (0x61 <= u0 && u0 <= 0x7a) {
                let c1 = s.get_char(1);
                let c2 = s.get_char(2);
                return c1 == ':' && (c2 == '/' || c2 == '\\');
            }
        }
    }
    false
}

/// A root joined with a relative path: a `/` is inserted unless the root
/// already ends in a separator.
pub open spec fn join_parts(root: Seq<char>, rel: Seq<char>) -> Seq<char> {
    if root.len() > 0 && is_separator(root[root.len() - 1]) {
        root + rel
    } else {
        root + seq!['/'] + rel
    }
}

/// Builds [`join_parts`] as a real string.
pub fn join_path(root: &str, rel: &str) -> (r: String)
    ensures
        r@ == join_parts(root@, rel@),
{
    let n = root.unicode_len();
    let mut out = root.to_owned();
    if n > 0 {
        let last = root.get_char(n - 1);
        if last == '/' || last == '\\' {
            out.append(rel);
            return out;
        }
    }
    out.append("/");
    out.append(rel);
    proof {
        reveal_strlit("/");
        assert(out@ =~= join_parts(root@, rel@));
    }
    out
}

/// The index of the first `true` answer, if any.
pub open spec fn first_hit(hits: Seq<bool>) -> Option<int>
    decreases hits.len(),
{
    if hits.len() == 0 {
        None
    } else if hits[0] {
        Some(0)
    } else {
        match first_hit(hits.drop_first()) {
            Some(i) => Some(i + 1),
            None => None,
        }
    }
}

/// What [`first_hit`] returns: the least index holding `true`, or nothing
/// when every answer is `false`.
pub proof fn lemma_first_hit(hits: Seq<bool>)
    ensures
        match first_hit(hits) {
            Some(i) => 0 <= i < hits.len() && hits[i] && forall|k: int| 0 <= k < i ==> !hits[k],
            None => forall|k: int| 0 <= k < hits.len() ==> !hits[k],
        },
    decreases hits.len(),
{
    if hits.len() > 0 && !hits[0] {
        let sub = hits.drop_first();
        lemma_first_hit(sub);
        match first_hit(sub) {
            Some(i) => {
                assert forall|k: int| 0 <= k < i + 1 implies !hits[k] by {
                    if k >= 1 {
                        assert(!sub[k - 1]);
                    }
                }
            },
            None => {
                assert forall|k: int| 0 <= k < hits.len() implies !hits[k] by {
                    if k >= 1 {
                        assert(!sub[k - 1]);
                    }
                }
            },
        }
    }
}

/// Finds the first `true` answer in a vector.
pub fn first_true(hits: &Vec<bool>) -> (r: Option<usize>)
    ensures
        match r {
            Some(i) => first_hit(hits@) == Some(i as int),
            None => first_hit(hits@) is None,
        },
{
    proof {
        lemma_first_hit(hits@);
    }
    let mut i: usize = 0;
    while i < hits.len()
        invariant
            i <= hits@.len(),
            forall|k: int| 0 <= k < i ==> !hits@[k],
        decreases hits@.len() - i,
    {
        if hits[i] {
            proof {
                lemma_first_hit(hits@);
            }
            return Some(i);
        }
        i = i + 1;
    }
    None
}

/// Where a relative path resolves to, given the candidate roots and, for
/// each root, whether the joined path exists: an absolute input is kept as
/// it is; otherwise the first root whose join exists wins; with no hit the
/// input is returned unchanged for the caller to report.
pub open spec fn resolved_path(raw: Seq<char>, roots: Seq<Seq<char>>, hits: Seq<bool>) -> Seq<
    char,
> {
    if is_absolute_path(raw) {
        raw
    } else {
        match first_hit(hits) {
            Some(i) => if 0 <= i < roots.len() {
                join_parts(roots[i], raw)
            } else {
                raw
            },
            None => raw,
        }
    }
}

/// Law: an absolute input path is returned unchanged, whatever the roots
/// and probe answers say.
pub proof fn lemma_resolve_absolute(raw: Seq<char>, roots: Seq<Seq<char>>, hits: Seq<bool>)
    requires
        is_absolute_path(raw),
    ensures
        resolved_path(raw, roots, hits) == raw,
{
}

/// Law: for a relative input, the highest-priority root whose joined path
/// exists wins, whatever the probes after it say.
pub proof fn lemma_resolve_priority(raw: Seq<char>, roots: Seq<Seq<char>>, hits: Seq<bool>, i: int)
    requires
        !is_absolute_path(raw),
        hits.len() == roots.len(),
        0 <= i < hits.len(),
        hits[i],
        forall|k: int| 0 <= k < i ==> !hits[k],
    ensures
        resolved_path(raw, roots, hits) == join_parts(roots[i], raw),
{
    lemma_first_hit(hits);
    let j = first_hit(hits)->0;
    if j < i {
        assert(hits[j]);
    }
    if j > i {
        assert(!hits[i]);
    }
}

/// Law: a relative input that exists under exactly one root resolves to
/// that root joined with the input.
pub proof fn lemma_resolve_unique_root(
    raw: Seq<char>,
    roots: Seq<Seq<char>>,
    hits: Seq<bool>,
    i: int,
)
    requires
        !is_absolute_path(raw),
        hits.len() == roots.len(),
        0 <= i < hits.len(),
        hits[i],
        forall|k: int| 0 <= k < hits.len() && k != i ==> !hits[k],
    ensures
        resolved_path(raw, roots, hits) == join_parts(roots[i], raw),
{
    lemma_resolve_priority(raw, roots, hits, i);
}

/// Law: a relative input that exists under no root is returned unchanged.
pub proof fn lemma_resolve_no_hit(raw: Seq<char>, roots: Seq<Seq<char>>, hits: Seq<bool>)
    requires
        !is_absolute_path(raw),
        forall|k: int| 0 <= k < hits.len() ==> !hits[k],
    ensures
        resolved_path(raw, roots, hits) == raw,
{
    lemma_first_hit(hits);
    if first_hit(hits) is Some {
        assert(hits[first_hit(hits)->0]);
    }
}

/// Turns a possibly-relative user path into a best-effort path, probing the
/// candidate roots in priority order. `hits[k]` must answer whether
/// [`join_path`]`(roots[k], raw)` exists. The result is exactly
/// [`resolved_path`]; the caller still has to existence-check it.
pub fn resolve(raw: &str, roots: &Vec<String>, hits: &Vec<bool>) -> (r: String)
    requires
        roots@.len() == hits@.len(),
    ensures
        r@ == resolved_path(raw@, roots.deep_view(), hits@),
{
    if path_is_absolute(raw) {
        return raw.to_owned();
    }
    proof {
        lemma_first_hit(hits@);
    }
    match first_true(hits) {
        Some(i) => join_path(roots[i].as_str(), raw),
        None => raw.to_owned(),
    }
}

/// The ordered candidate roots for a relative path: the working directory,
/// the directory holding the running program, the user's home directory,
/// and the home Downloads and Documents directories. The three seeds come
/// from the caller, since only the surrounding binary can ask the system
/// for them.
pub fn candidate_roots(cwd: &str, exe_dir: &str, home: &str) -> (v: Vec<String>)
    ensures
        v.deep_view() =~= seq![
            cwd@,
            exe_dir@,
            home@,
            join_parts(home@, "Downloads"@),
            join_parts(home@, "Documents"@),
        ],
{
    let mut v: Vec<String> = Vec::new();
    v.push(cwd.to_owned());
    v.push(exe_dir.to_owned());
    v.push(home.to_owned());
    v.push(join_path(home, "Downloads"));
    v.push(join_path(home, "Documents"));
    v
}

} // verus!
