//! Git worktrees: where they go, what their branches are called, and reading
//! `git worktree list --porcelain`.

use vstd::prelude::*;
use crate::git::{io_error_text, string_from_utf8_lossy, utf8_lossy, CommandOutput};
use crate::ids::{Timestamp, Uuid};
use crate::models::Worktree;
use crate::text::{
    after_prefix, chars_of, has_prefix, lines, split_lines, string_from_chars, strip_prefix, trim,
    trim_chars, views_of,
};

verus! {

/// Errors from worktree operations.
pub enum WorktreeError {
    /// The path holds no `.git` entry.
    NotGitRepo(String),
    /// A worktree would be created where something already exists.
    PathExists(String),
    /// A git command failed; the message names it and holds its error output.
    Failed(String),
    /// The git command could not be run.
    Io(std::io::Error),
}

/// How a path is shown in messages: `std::path::Path`'s `Debug` text (quoted,
/// with escapes).
pub uninterp spec fn path_debug(path: Seq<char>) -> Seq<char>;

/// `format!("{:?}", Path::new(path))`: the path as `Path`'s `Debug` shows it.
#[verifier::external_body]
fn path_debug_text(path: &str) -> (r: String)
    ensures
        r@ == path_debug(path@),
{
    format!("{:?}", std::path::Path::new(path))
}

impl WorktreeError {
    /// The error's message, as the user sees it. For an I/O error it is the
    /// I/O error's own text, which is not stated.
    pub fn message(&self) -> (r: String)
        ensures
            self matches WorktreeError::NotGitRepo(p) ==> r@ == "Not a git repository: "@
                + path_debug(p@),
            self matches WorktreeError::PathExists(p) ==> r@ == "Worktree path already exists: "@
                + path_debug(p@),
            self matches WorktreeError::Failed(m) ==> r@ == m@,
    {
        match self {
            WorktreeError::NotGitRepo(p) => String::from_str("Not a git repository: ").concat(
                path_debug_text(p.as_str()).as_str(),
            ),
            WorktreeError::PathExists(p) => String::from_str(
                "Worktree path already exists: ",
            ).concat(path_debug_text(p.as_str()).as_str()),
            WorktreeError::Failed(m) => m.clone(),
            WorktreeError::Io(e) => io_error_text(e),
        }
    }
}

/// Information about a worktree returned by Git.
pub struct WorktreeInfo {
    pub path: String,
    pub head_sha: String,
    pub branch: Option<String>,
    pub is_bare: bool,
    pub is_detached: bool,
}

pub struct WorktreeInfoView {
    pub path: Seq<char>,
    pub head_sha: Seq<char>,
    pub branch: Option<Seq<char>>,
    pub is_bare: bool,
    pub is_detached: bool,
}

impl View for WorktreeInfo {
    type V = WorktreeInfoView;

    open spec fn view(&self) -> WorktreeInfoView {
        WorktreeInfoView {
            path: self.path@,
            head_sha: self.head_sha@,
            branch: match self.branch {
                Some(b) => Some(b@),
                None => None,
            },
            is_bare: self.is_bare,
            is_detached: self.is_detached,
        }
    }
}

pub open spec fn empty_info() -> WorktreeInfoView {
    WorktreeInfoView {
        path: seq![],
        head_sha: seq![],
        branch: None,
        is_bare: false,
        is_detached: false,
    }
}

impl Default for WorktreeInfo {
    fn default() -> (r: WorktreeInfo)
        ensures
            r@ == empty_info(),
    {
        WorktreeInfo {
            path: String::new(),
            head_sha: String::new(),
            branch: None,
            is_bare: false,
            is_detached: false,
        }
    }
}

impl Clone for WorktreeInfo {
    fn clone(&self) -> (r: WorktreeInfo)
        ensures
            r@ == self@,
    {
        WorktreeInfo {
            path: self.path.clone(),
            head_sha: self.head_sha.clone(),
            branch: match &self.branch {
                Some(b) => Some(b.clone()),
                None => None,
            },
            is_bare: self.is_bare,
            is_detached: self.is_detached,
        }
    }
}

/// The effect of one porcelain line on the worktrees read so far and the one
/// being read: a blank line closes the current worktree (if it has a path);
/// `worktree`, `HEAD`, `branch`, `bare` and `detached` lines fill it in.
pub open spec fn porcelain_step(
    state: (Seq<WorktreeInfoView>, WorktreeInfoView),
    line: Seq<char>,
) -> (Seq<WorktreeInfoView>, WorktreeInfoView) {
    let (done, cur) = state;
    if line.len() == 0 {
        if cur.path.len() > 0 {
            (done.push(cur), empty_info())
        } else {
            (done, cur)
        }
    } else if has_prefix(line, "worktree "@) {
        (done, WorktreeInfoView { path: after_prefix(line, "worktree "@), ..cur })
    } else if has_prefix(line, "HEAD "@) {
        (done, WorktreeInfoView { head_sha: after_prefix(line, "HEAD "@), ..cur })
    } else if has_prefix(line, "branch "@) {
        (done, WorktreeInfoView { branch: Some(after_prefix(line, "branch "@)), ..cur })
    } else if line == "bare"@ {
        (done, WorktreeInfoView { is_bare: true, ..cur })
    } else if line == "detached"@ {
        (done, WorktreeInfoView { is_detached: true, ..cur })
    } else {
        (done, cur)
    }
}

/// The state after reading the given lines.
pub open spec fn porcelain_fold(ls: Seq<Seq<char>>) -> (Seq<WorktreeInfoView>, WorktreeInfoView)
    decreases ls.len(),
{
    if ls.len() == 0 {
        (seq![], empty_info())
    } else {
        porcelain_step(porcelain_fold(ls.drop_last()), ls.last())
    }
}

/// The worktrees that `git worktree list --porcelain` output lists: the
/// closed ones, then the last one if it has a path.
pub open spec fn worktree_list(output: Seq<char>) -> Seq<WorktreeInfoView> {
    let (done, cur) = porcelain_fold(lines(output));
    if cur.path.len() > 0 {
        done.push(cur)
    } else {
        done
    }
}

pub open spec fn info_views(v: Seq<WorktreeInfo>) -> Seq<WorktreeInfoView> {
    v.map_values(|i: WorktreeInfo| i@)
}

fn chars_equal(a: &Vec<char>, b: &str) -> (r: bool)
    ensures
        r == (a@ == b@),
{
    let t = string_from_chars(a);
    crate::rpc::text_eq(&t, b)
}

/// Service for managing Git worktrees.
pub struct WorktreeService {
    pub worktrees_base: String,
}

/// `Path::join` on Unix: an absolute `name` replaces the base; otherwise a
/// separator is put between them unless the base is empty or ends with one.
pub open spec fn path_join(base: Seq<char>, name: Seq<char>) -> Seq<char> {
    if name.len() > 0 && name[0] == '/' {
        name
    } else if base.len() == 0 || base.last() == '/' {
        base + name
    } else {
        base + seq!['/'] + name
    }
}

impl WorktreeService {
    /// A worktree service that creates worktrees under `worktrees_base`
    /// (e.g. `.cox/worktrees`).
    pub fn new(worktrees_base: String) -> (r: WorktreeService)
        ensures
            r.worktrees_base@ == worktrees_base@,
    {
        WorktreeService { worktrees_base }
    }

    /// Verifies that a path is a Git repository, given whether it holds a
    /// `.git` entry.
    pub fn verify_git_repo(&self, path: &str, git_dir_exists: bool) -> (r: Result<(), WorktreeError>)
        ensures
            git_dir_exists ==> r is Ok,
            !git_dir_exists ==> (r matches Err(WorktreeError::NotGitRepo(p)) && p@ == path@),
    {
        if !git_dir_exists {
            return Err(WorktreeError::NotGitRepo(String::from_str(path)));
        }
        Ok(())
    }

    /// Parses the output of `git worktree list --porcelain`.
    pub fn parse_worktree_list(&self, output: &str) -> (r: Result<Vec<WorktreeInfo>, WorktreeError>)
        ensures
            r matches Ok(v) && info_views(v@) == worktree_list(output@),
    {
        let text = chars_of(output);
        let ls = split_lines(&text);
        let mut worktrees: Vec<WorktreeInfo> = Vec::new();
        let mut current = WorktreeInfo::default();
        let mut i: usize = 0;
        while i < ls.len()
            invariant
                i <= ls@.len(),
                views_of(ls@) == lines(output@),
                porcelain_fold(views_of(ls@).subrange(0, i as int)) == (
                info_views(worktrees@),
                current@,
                ),
            decreases ls.len() - i,
        {
            let ghost prefix = views_of(ls@).subrange(0, i + 1);
            assert(prefix.drop_last() =~= views_of(ls@).subrange(0, i as int));
            assert(prefix.last() == ls@[i as int]@);
            let line = &ls[i];
            if line.len() == 0 {
                if !current.path.as_str().is_empty() {
                    let ghost before = worktrees@;
                    worktrees.push(current.clone());
                    assert(info_views(worktrees@) =~= info_views(before).push(current@));
                    current = WorktreeInfo::default();
                }
            } else {
                match strip_prefix(line, "worktree ") {
                    Some(path) => {
                        current.path = path;
                    },
                    None => match strip_prefix(line, "HEAD ") {
                        Some(sha) => {
                            current.head_sha = sha;
                        },
                        None => match strip_prefix(line, "branch ") {
                            Some(branch) => {
                                current.branch = Some(branch);
                            },
                            None => {
                                if chars_equal(line, "bare") {
                                    current.is_bare = true;
                                } else if chars_equal(line, "detached") {
                                    current.is_detached = true;
                                }
                            },
                        },
                    },
                }
            }
            i = i + 1;
        }
        assert(views_of(ls@).subrange(0, i as int) =~= views_of(ls@));
        if !current.path.as_str().is_empty() {
            let ghost before = worktrees@;
            worktrees.push(current);
            assert(info_views(worktrees@) =~= info_views(before).push(worktrees@.last()@));
        }
        Ok(worktrees)
    }

    /// The worktrees listed by a finished `git worktree list --porcelain`.
    pub fn list_from_output(&self, output: CommandOutput) -> (r: Result<
        Vec<WorktreeInfo>,
        WorktreeError,
    >)
        ensures
            !output.success ==> (r matches Err(WorktreeError::Failed(m)) && m@
                == "git worktree list failed: "@ + utf8_lossy(output.stderr@)),
            output.success ==> (r matches Ok(v) && info_views(v@) == worktree_list(
                utf8_lossy(output.stdout@),
            )),
    {
        if !output.success {
            let stderr = string_from_utf8_lossy(output.stderr.as_slice());
            return Err(
                WorktreeError::Failed(
                    String::from_str("git worktree list failed: ").concat(stderr.as_str()),
                ),
            );
        }
        let stdout = string_from_utf8_lossy(output.stdout.as_slice());
        self.parse_worktree_list(stdout.as_str())
    }

    /// The branch a new worktree named `name` gets.
    pub fn branch_name(name: &str) -> (r: String)
        ensures
            r@ == "cox/"@ + name@,
    {
        String::from_str("cox/").concat(name)
    }

    /// Where a new worktree named `name` goes: the base joined with the name.
    pub fn worktree_path(&self, name: &str) -> (r: String)
        ensures
            r@ == path_join(self.worktrees_base@, name@),
    {
        let n = chars_of(name);
        if n.len() > 0 && n[0] == '/' {
            return String::from_str(name);
        }
        let b = chars_of(self.worktrees_base.as_str());
        if b.len() == 0 || b[b.len() - 1] == '/' {
            self.worktrees_base.clone().concat(name)
        } else {
            proof {
                reveal_strlit("/");
            }
            assert("/"@ =~= seq!['/']);
            self.worktrees_base.clone().concat("/").concat(name)
        }
    }

    /// Where a new worktree may go: only where nothing exists yet.
    pub fn check_new_path(path: &str, exists: bool) -> (r: Result<(), WorktreeError>)
        ensures
            !exists ==> r is Ok,
            exists ==> (r matches Err(WorktreeError::PathExists(p)) && p@ == path@),
    {
        if exists {
            return Err(WorktreeError::PathExists(String::from_str(path)));
        }
        Ok(())
    }

    /// The HEAD SHA reported by a finished `git rev-parse HEAD`.
    pub fn head_sha_from_output(output: CommandOutput) -> (r: Result<String, WorktreeError>)
        ensures
            !output.success ==> (r matches Err(WorktreeError::Failed(m)) && m@
                == "git rev-parse HEAD failed: "@ + utf8_lossy(output.stderr@)),
            output.success ==> (r matches Ok(s) && s@ == trim(utf8_lossy(output.stdout@))),
    {
        if !output.success {
            let stderr = string_from_utf8_lossy(output.stderr.as_slice());
            return Err(
                WorktreeError::Failed(
                    String::from_str("git rev-parse HEAD failed: ").concat(stderr.as_str()),
                ),
            );
        }
        let sha = string_from_utf8_lossy(output.stdout.as_slice());
        Ok(string_from_chars(&trim_chars(&chars_of(sha.as_str()))))
    }

    /// The failure of `git worktree add`, or nothing when it succeeded.
    pub fn add_result(output: &CommandOutput) -> (r: Result<(), WorktreeError>)
        ensures
            !output.success ==> (r matches Err(WorktreeError::Failed(m)) && m@
                == "git worktree add failed: "@ + utf8_lossy(output.stderr@)),
            output.success ==> r is Ok,
    {
        if !output.success {
            let stderr = string_from_utf8_lossy(output.stderr.as_slice());
            return Err(
                WorktreeError::Failed(
                    String::from_str("git worktree add failed: ").concat(stderr.as_str()),
                ),
            );
        }
        Ok(())
    }

    /// The failure of `git worktree remove`, or nothing when it succeeded.
    pub fn remove_result(output: &CommandOutput) -> (r: Result<(), WorktreeError>)
        ensures
            !output.success ==> (r matches Err(WorktreeError::Failed(m)) && m@
                == "git worktree remove failed: "@ + utf8_lossy(output.stderr@)),
            output.success ==> r is Ok,
    {
        if !output.success {
            let stderr = string_from_utf8_lossy(output.stderr.as_slice());
            return Err(
                WorktreeError::Failed(
                    String::from_str("git worktree remove failed: ").concat(stderr.as_str()),
                ),
            );
        }
        Ok(())
    }

    /// The record of a worktree created now: a fresh id, on branch
    /// `cox/<name>`, not active.
    pub fn new_worktree(
        project_id: Uuid,
        name: &str,
        path: String,
        head_sha: String,
        now: Timestamp,
    ) -> (r: Worktree)
        ensures
            r.created_at == now,
            r.project_id == project_id,
            r.name@ == name@,
            r.path@ == path@,
            r.branch@ == "cox/"@ + name@,
            r.head_sha@ == head_sha@,
            !r.is_active,
    {
        Worktree {
            id: Uuid::new_v4(),
            project_id,
            name: String::from_str(name),
            path,
            branch: Self::branch_name(name),
            head_sha,
            is_active: false,
            created_at: now,
        }
    }
}

/// A line does to the worktrees listed before some others what it does to
/// those others alone.
proof fn lemma_step_after(
    earlier: Seq<WorktreeInfoView>,
    done: Seq<WorktreeInfoView>,
    cur: WorktreeInfoView,
    line: Seq<char>,
)
    ensures
        porcelain_step((earlier + done, cur), line) == (
            earlier + porcelain_step((done, cur), line).0,
            porcelain_step((done, cur), line).1,
        ),
{
    assert((earlier + done).push(cur) =~= earlier + done.push(cur));
}

proof fn lemma_fold_after_fresh(a: Seq<Seq<char>>, b: Seq<Seq<char>>)
    requires
        porcelain_fold(a).1 == empty_info(),
    ensures
        porcelain_fold(a + b) == (porcelain_fold(a).0 + porcelain_fold(b).0, porcelain_fold(b).1),
    decreases b.len(),
{
    if b.len() == 0 {
        assert(a + b =~= a);
        assert(porcelain_fold(a).0 + Seq::<WorktreeInfoView>::empty() =~= porcelain_fold(a).0);
    } else {
        let b2 = b.drop_last();
        lemma_fold_after_fresh(a, b2);
        assert((a + b).drop_last() =~= a + b2);
        assert((a + b).last() == b.last());
        lemma_step_after(porcelain_fold(a).0, porcelain_fold(b2).0, porcelain_fold(b2).1, b.last());
    }
}

/// Each worktree is read from its own block: once a blank line has closed a
/// worktree (a block with a path), the worktrees that follow are listed
/// exactly as they would be on their own, nothing of the closed block
/// carrying over (its `bare` or `detached` flag, branch or HEAD).
pub proof fn lemma_blocks_are_independent(a: Seq<Seq<char>>, b: Seq<Seq<char>>)
    requires
        a.len() > 0,
        a.last().len() == 0,
        porcelain_fold(a.drop_last()).1.path.len() > 0,
    ensures
        porcelain_fold(a + b) == (porcelain_fold(a).0 + porcelain_fold(b).0, porcelain_fold(b).1),
{
    lemma_fold_after_fresh(a, b);
}

/// No worktree is bare unless a `bare` line says so: lines without one list
/// only worktrees that are not bare.
pub proof fn lemma_bare_only_when_said(ls: Seq<Seq<char>>)
    requires
        forall|i: int| 0 <= i < ls.len() ==> ls[i] != "bare"@,
    ensures
        forall|k: int| 0 <= k < porcelain_fold(ls).0.len() ==> !(#[trigger] porcelain_fold(ls).0[k]).is_bare,
        !porcelain_fold(ls).1.is_bare,
    decreases ls.len(),
{
    if ls.len() > 0 {
        lemma_bare_only_when_said(ls.drop_last());
        assert(ls.last() != "bare"@);
    }
}

} // verus!
