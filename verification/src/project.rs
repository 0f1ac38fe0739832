//! Projects: opening a directory as a project, naming it, and reading the
//! current branch from a Git `HEAD` file.

use vstd::prelude::*;
use crate::ids::{Timestamp, Uuid};
use crate::models::{Project, RepoStatusSummary};
use crate::text::{
    end_non_ws, first_non_ws, is_ws, pieces_from, sep_at_or_after, trim_end, trim_start,
    after_prefix, chars_of, has_prefix, pieces, split_on, string_from_chars, strip_prefix, trim,
    trim_chars, views_of,
};

verus! {

/// Errors from project operations. A storage failure carries the message
/// of the database error that caused it.
pub enum Error {
    PathNotFound(String),
    Storage(String),
    Git(String),
}

impl Error {
    /// The error's message, as the user sees it.
    pub fn message(&self) -> (r: String)
        ensures
            r@ == match self {
                Error::PathNotFound(p) => "project path does not exist: "@ + p@,
                Error::Storage(m) => "storage error: "@ + m@,
                Error::Git(m) => "git error: "@ + m@,
            },
    {
        match self {
            Error::PathNotFound(p) => String::from_str("project path does not exist: ").concat(p.as_str()),
            Error::Storage(m) => String::from_str("storage error: ").concat(m.as_str()),
            Error::Git(m) => String::from_str("git error: ").concat(m.as_str()),
        }
    }
}

/// The last path component that is neither empty nor `.`.
pub open spec fn last_named(segs: Seq<Seq<char>>) -> Option<Seq<char>>
    decreases segs.len(),
{
    if segs.len() == 0 {
        None
    } else if segs.last().len() == 0 || segs.last() == seq!['.'] {
        last_named(segs.drop_last())
    } else {
        Some(segs.last())
    }
}

/// `Path::file_name` on a Unix path: its last normal component, if any.
pub open spec fn file_name(path: Seq<char>) -> Option<Seq<char>> {
    match last_named(pieces(path, '/')) {
        Some(n) => if n == seq!['.', '.'] {
            None
        } else {
            Some(n)
        },
        None => None,
    }
}

/// The name of a project at a path: the directory's name, or `unnamed`.
pub open spec fn project_name_of(path: Seq<char>) -> Seq<char> {
    match file_name(path) {
        Some(n) => n,
        None => "unnamed"@,
    }
}

/// The branch a `HEAD` file names: what follows `ref: refs/heads/`, trimmed;
/// `(detached)` for a detached HEAD or anything else.
pub open spec fn head_branch(content: Seq<char>) -> Seq<char> {
    if has_prefix(content, "ref: refs/heads/"@) {
        trim(after_prefix(content, "ref: refs/heads/"@))
    } else {
        "(detached)"@
    }
}

fn is_single_dot(v: &Vec<char>) -> (r: bool)
    ensures
        r == (v@ == seq!['.']),
{
    let r = v.len() == 1 && v[0] == '.';
    if r {
        assert(v@ =~= seq!['.']);
    }
    r
}

fn is_double_dot(v: &Vec<char>) -> (r: bool)
    ensures
        r == (v@ == seq!['.', '.']),
{
    let r = v.len() == 2 && v[0] == '.' && v[1] == '.';
    if r {
        assert(v@ =~= seq!['.', '.']);
    }
    r
}

/// The name of the project at a (canonical) path.
pub fn project_name(path: &str) -> (r: String)
    ensures
        r@ == project_name_of(path@),
{
    let segs = split_on(&chars_of(path), '/');
    let mut i = segs.len();
    assert(views_of(segs@).subrange(0, i as int) =~= views_of(segs@));
    while i > 0 && (segs[i - 1].len() == 0 || is_single_dot(&segs[i - 1]))
        invariant
            i <= segs@.len(),
            views_of(segs@) == pieces(path@, '/'),
            last_named(views_of(segs@)) == last_named(views_of(segs@).subrange(0, i as int)),
        decreases i,
    {
        let ghost pre = views_of(segs@).subrange(0, i as int);
        assert(pre.drop_last() =~= views_of(segs@).subrange(0, i - 1));
        i = i - 1;
    }
    if i == 0 {
        assert(views_of(segs@).subrange(0, 0).len() == 0);
        return String::from_str("unnamed");
    }
    let ghost pre = views_of(segs@).subrange(0, i as int);
    assert(pre.last() == segs@[i - 1]@);
    if is_double_dot(&segs[i - 1]) {
        return String::from_str("unnamed");
    }
    string_from_chars(&segs[i - 1])
}

/// The current branch named by the contents of a Git `HEAD` file.
pub fn current_branch_from_head(content: &str) -> (r: String)
    ensures
        r@ == head_branch(content@),
{
    match strip_prefix(&chars_of(content), "ref: refs/heads/") {
        Some(rest) => string_from_chars(&trim_chars(&chars_of(rest.as_str()))),
        None => String::from_str("(detached)"),
    }
}

/// Fails with `PathNotFound` when the path does not exist.
pub fn check_path(path: &str, exists: bool) -> (r: Result<(), Error>)
    ensures
        exists ==> r is Ok,
        !exists ==> (r matches Err(Error::PathNotFound(p)) && p@ == path@),
{
    if !exists {
        return Err(Error::PathNotFound(String::from_str(path)));
    }
    Ok(())
}

/// The name of a project whose directory has the given path: the directory's
/// name, or `unnamed` when that name is not text.
pub open spec fn name_of(path: Seq<char>, name_is_text: bool) -> Seq<char> {
    if name_is_text {
        project_name_of(path)
    } else {
        "unnamed"@
    }
}

/// The record of a project opened now at a canonical path: named after its
/// directory (`name_is_text` tells whether that name is valid UTF-8); on a
/// Git repository, on the branch that `HEAD` names when it could be read. A
/// project already stored at that path keeps its id and creation time; either
/// way it was last opened now.
pub fn open_project(
    existing: Option<&Project>,
    canonical_path: String,
    name_is_text: bool,
    is_git_repo: bool,
    head_content: Option<String>,
    now: Timestamp,
) -> (r: Project)
    ensures
        r.path@ == canonical_path@,
        r.name@ == name_of(canonical_path@, name_is_text),
        r.is_git_repo == is_git_repo,
        !is_git_repo ==> r.current_branch is None,
        is_git_repo ==> match head_content {
            Some(h) => r.current_branch matches Some(b) && b@ == head_branch(h@),
            None => r.current_branch is None,
        },
        existing matches Some(e) ==> r.id == e.id && r.created_at == e.created_at,
        existing is None ==> r.created_at == now,
        r.last_opened_at == now,
{
    let name = if name_is_text {
        project_name(canonical_path.as_str())
    } else {
        String::from_str("unnamed")
    };
    let current_branch = if is_git_repo {
        match head_content {
            Some(h) => Some(current_branch_from_head(h.as_str())),
            None => None,
        }
    } else {
        None
    };
    match existing {
        Some(e) => Project {
            id: e.id,
            name,
            path: canonical_path,
            is_git_repo,
            current_branch,
            created_at: e.created_at,
            last_opened_at: now,
        },
        None => Project {
            id: Uuid::new_v4(),
            name,
            path: canonical_path,
            is_git_repo,
            current_branch,
            created_at: now,
            last_opened_at: now,
        },
    }
}

/// Opening the project at `path`: `PathNotFound` (naming the path as given)
/// when the path has no canonical form (it does not exist, or cannot be
/// resolved); else the record [`open_project`] makes at the canonical path.
pub fn open_project_at(
    path: &str,
    canonical: Option<String>,
    existing: Option<&Project>,
    name_is_text: bool,
    is_git_repo: bool,
    head_content: Option<String>,
    now: Timestamp,
) -> (r: Result<Project, Error>)
    ensures
        canonical is None ==> (r matches Err(Error::PathNotFound(p)) && p@ == path@),
        canonical matches Some(c) ==> (r matches Ok(p) && p.path@ == c@ && p.name@ == name_of(
            c@,
            name_is_text,
        ) && p.is_git_repo == is_git_repo && (!is_git_repo ==> p.current_branch is None) && (
        is_git_repo ==> match head_content {
            Some(h) => p.current_branch matches Some(b) && b@ == head_branch(h@),
            None => p.current_branch is None,
        }) && (existing matches Some(e) ==> p.id == e.id && p.created_at == e.created_at) && (
        existing is None ==> p.created_at == now) && p.last_opened_at == now),
{
    match canonical {
        None => Err(Error::PathNotFound(String::from_str(path))),
        Some(c) => Ok(open_project(existing, c, name_is_text, is_git_repo, head_content, now)),
    }
}

/// A brief status summary for a Git repo: for now always `main`, clean, and
/// level with its upstream.
pub fn get_repo_status(_repo_path: &str) -> (r: Result<RepoStatusSummary, Error>)
    ensures
        r matches Ok(s) && s.branch@ == "main"@ && !s.dirty && s.ahead == 0 && s.behind == 0,
{
    Ok(
        RepoStatusSummary {
            branch: String::from_str("main"),
            dirty: false,
            ahead: 0,
            behind: 0,
        },
    )
}

proof fn lemma_sep_at_most(s: Seq<char>, pos: int, k: int, sep: char)
    requires
        0 <= pos <= k < s.len(),
        s[k] == sep,
    ensures
        pos <= sep_at_or_after(s, pos, sep) <= k,
        s[sep_at_or_after(s, pos, sep)] == sep,
    decreases k - pos,
{
    if s[pos] != sep {
        lemma_sep_at_most(s, pos + 1, k, sep);
    }
}

proof fn lemma_no_sep_after(s: Seq<char>, pos: int, sep: char)
    requires
        0 <= pos <= s.len(),
        forall|i: int| pos <= i < s.len() ==> s[i] != sep,
    ensures
        sep_at_or_after(s, pos, sep) == s.len(),
    decreases s.len() - pos,
{
    if pos < s.len() {
        lemma_no_sep_after(s, pos + 1, sep);
    }
}

/// The pieces of `d + "/" + n` from any point up to the last `/` end with
/// `n`, when `n` holds no `/`.
proof fn lemma_last_piece(d: Seq<char>, n: Seq<char>, pos: int)
    requires
        0 <= pos <= d.len() + 1,
        forall|i: int| 0 <= i < n.len() ==> n[i] != '/',
    ensures
        pieces_from(d + seq!['/'] + n, pos, '/').len() > 0,
        pieces_from(d + seq!['/'] + n, pos, '/').last() == n,
    decreases d.len() + 1 - pos,
{
    let s = d + seq!['/'] + n;
    let k = d.len() as int;
    assert(s[k] == '/');
    assert forall|i: int| k + 1 <= i < s.len() implies s[i] != '/' by {
        assert(s[i] == n[i - k - 1]);
    }
    if pos <= k {
        lemma_sep_at_most(s, pos, k, '/');
        let j = sep_at_or_after(s, pos, '/');
        lemma_last_piece(d, n, j + 1);
        let rest = pieces_from(s, j + 1, '/');
        assert((seq![s.subrange(pos, j)] + rest).last() == rest.last());
    } else {
        lemma_no_sep_after(s, pos, '/');
        assert(s.subrange(pos, s.len() as int) =~= n);
    }
}

/// A project is named after its directory, unchanged: for a directory `n`
/// (not empty, without `/`, neither `.` nor `..`) inside any directory `d`,
/// the project at `d/n` is named `n`.
pub proof fn lemma_project_named_after_directory(d: Seq<char>, n: Seq<char>)
    requires
        n.len() > 0,
        forall|i: int| 0 <= i < n.len() ==> n[i] != '/',
        n != seq!['.'],
        n != seq!['.', '.'],
    ensures
        project_name_of(d + seq!['/'] + n) == n,
{
    lemma_last_piece(d, n, 0);
    let segs = pieces(d + seq!['/'] + n, '/');
    assert(segs.last() == n);
    assert(last_named(segs) == Some(n));
}

/// A `HEAD` file that points at a branch names that branch, whatever the
/// line end: for a branch name `b` that neither starts nor ends with
/// whitespace, `ref: refs/heads/<b>` followed by a newline is on `b`.
pub proof fn lemma_head_names_its_branch(b: Seq<char>)
    requires
        b.len() > 0,
        !is_ws(b[0]),
        !is_ws(b.last()),
    ensures
        head_branch("ref: refs/heads/"@ + b + seq!['\n']) == b,
{
    let pre = "ref: refs/heads/"@;
    let s = pre + b + seq!['\n'];
    assert(s.subrange(0, pre.len() as int) =~= pre);
    let rest = after_prefix(s, pre);
    assert(rest =~= b + seq!['\n']);
    assert(rest[0] == b[0]);
    assert(first_non_ws(rest, 0) == 0);
    assert(trim_start(rest) =~= rest);
    assert(is_ws(rest[rest.len() - 1]));
    assert(rest[rest.len() - 2] == b.last());
    assert(end_non_ws(rest, rest.len() - 1) == rest.len() - 1);
    assert(end_non_ws(rest, rest.len() as int) == rest.len() - 1);
    assert(trim_end(rest) =~= b);
}

} // verus!
