//! Git diffs: reading what `git diff` reports, listing the changed files
//! from its `--numstat` output, and summing them up.

use vstd::prelude::*;
use vstd::utf8::{decode_utf8, valid_utf8};
use crate::text::{
    chars_of, join, join_chars, lines, pieces, split_on, parse_usize, parse_usize_chars, split_lines, split_words,
    string_from_chars, string_from_utf8, views_of, words,
};

verus! {

#[verifier::external_type_specification]
#[verifier::external_body]
pub struct ExIoError(std::io::Error);

/// Errors from git operations.
pub enum Error {
    CommandFailed(String),
    Io(std::io::Error),
    Utf8(std::string::FromUtf8Error),
    NotGitRepo(String),
}

/// `Display` of an I/O error: `std::io::Error`'s `to_string`. Its text is
/// the operating system's and is not stated.
#[verifier::external_body]
pub(crate) fn io_error_text(e: &std::io::Error) -> (r: String) {
    e.to_string()
}

/// `Display` of a UTF-8 decoding error: `std::string::FromUtf8Error`'s
/// `to_string`. Its text is not stated.
#[verifier::external_body]
fn utf8_error_text(e: &std::string::FromUtf8Error) -> (r: String) {
    e.to_string()
}

impl Error {
    /// The error's message, as the user sees it. For I/O and UTF-8 errors it
    /// goes on with the text of the underlying error.
    pub fn message(&self) -> (r: String)
        ensures
            self matches Error::CommandFailed(m) ==> r@ == "git command failed: "@ + m@,
            self matches Error::NotGitRepo(p) ==> r@ == "not a git repository: "@ + p@,
            self is Io ==> exists|t: Seq<char>| r@ == "io error: "@ + t,
            self is Utf8 ==> exists|t: Seq<char>| r@ == "utf8 error: "@ + t,
    {
        match self {
            Error::CommandFailed(m) => String::from_str("git command failed: ").concat(m.as_str()),
            Error::NotGitRepo(p) => String::from_str("not a git repository: ").concat(p.as_str()),
            Error::Io(e) => {
                let t = io_error_text(e);
                let r = String::from_str("io error: ").concat(t.as_str());
                assert(r@ == "io error: "@ + t@);
                r
            },
            Error::Utf8(e) => {
                let t = utf8_error_text(e);
                let r = String::from_str("utf8 error: ").concat(t.as_str());
                assert(r@ == "utf8 error: "@ + t@);
                r
            },
        }
    }
}

/// Summary of changes in a diff.
pub struct DiffSummary {
    pub files_changed: usize,
    pub insertions: usize,
    pub deletions: usize,
}

/// File change status.
#[derive(Clone, Copy, Debug, PartialEq, Eq, Structural)]
pub enum FileStatus {
    Added,
    Modified,
    Deleted,
    Renamed,
}

/// A single changed file in the diff.
pub struct ChangedFile {
    pub path: String,
    pub status: FileStatus,
    pub insertions: usize,
    pub deletions: usize,
}

pub struct ChangedFileView {
    pub path: Seq<char>,
    pub status: FileStatus,
    pub insertions: nat,
    pub deletions: nat,
}

impl View for ChangedFile {
    type V = ChangedFileView;

    open spec fn view(&self) -> ChangedFileView {
        ChangedFileView {
            path: self.path@,
            status: self.status,
            insertions: self.insertions as nat,
            deletions: self.deletions as nat,
        }
    }
}

/// What a finished git command left: whether it succeeded, and its output.
pub struct CommandOutput {
    pub success: bool,
    pub stdout: Vec<u8>,
    pub stderr: Vec<u8>,
}

/// The text that `String::from_utf8_lossy` makes of some bytes.
pub uninterp spec fn utf8_lossy(bytes: Seq<u8>) -> Seq<char>;

/// `String::from_utf8_lossy`: decodes the bytes, putting U+FFFD in place of
/// each invalid sequence; valid UTF-8 is decoded as it is.
#[verifier::external_body]
pub(crate) fn string_from_utf8_lossy(bytes: &[u8]) -> (r: String)
    ensures
        r@ == utf8_lossy(bytes@),
        valid_utf8(bytes@) ==> r@ == decode_utf8(bytes@),
{
    String::from_utf8_lossy(bytes).into_owned()
}

/// A numeric column of `--numstat` output; `-` (binary files) and anything
/// else that is no number count as 0.
pub open spec fn count_of(word: Seq<char>) -> nat {
    match parse_usize(word) {
        Some(n) => n,
        None => 0,
    }
}

/// The status a `git diff --name-status` letter stands for: `A` added, `D`
/// deleted, `R` renamed; any other change (`M`, `T`, ...) is a modification.
pub open spec fn status_letter(c: char) -> FileStatus {
    if c == 'A' {
        FileStatus::Added
    } else if c == 'D' {
        FileStatus::Deleted
    } else if c == 'R' {
        FileStatus::Renamed
    } else {
        FileStatus::Modified
    }
}

/// The status letter and path of a `--name-status` line: its tab-separated
/// fields are the status (`M`, `A`, `D`, `R100`, ...) and the path or paths;
/// the last field is the path the file has now.
pub open spec fn name_status_entry(line: Seq<char>) -> Option<(char, Seq<char>)> {
    let f = pieces(line, '\t');
    if f.len() >= 2 && f[0].len() > 0 {
        Some((f[0][0], f.last()))
    } else {
        None
    }
}

/// The entries of the given `--name-status` lines, in order.
pub open spec fn name_statuses(ls: Seq<Seq<char>>) -> Seq<(char, Seq<char>)>
    decreases ls.len(),
{
    if ls.len() == 0 {
        seq![]
    } else {
        let rest = name_statuses(ls.drop_last());
        match name_status_entry(ls.last()) {
            Some(e) => rest.push(e),
            None => rest,
        }
    }
}

/// The status that the name-status entries give the `k`-th changed file:
/// git lists the files of one diff in the same order in its `--numstat` and
/// `--name-status` output, so the `k`-th entry is that file's; a file past
/// the entries counts as modified.
pub open spec fn status_at(entries: Seq<(char, Seq<char>)>, k: int) -> FileStatus {
    if 0 <= k < entries.len() {
        status_letter(entries[k].0)
    } else {
        FileStatus::Modified
    }
}

pub open spec fn entry_views(v: Seq<(char, Vec<char>)>) -> Seq<(char, Seq<char>)> {
    v.map_values(|e: (char, Vec<char>)| (e.0, e.1@))
}

/// The file a `--numstat` line reports, with the given status, if the line
/// has at least three words: insertions, deletions, and the path (its words
/// joined by single spaces; a rename shows as `old => new`).
pub open spec fn numstat_entry(line: Seq<char>, status: FileStatus) -> Option<ChangedFileView> {
    let w = words(line);
    if w.len() >= 3 {
        let path = join(w.subrange(2, w.len() as int), seq![' ']);
        Some(
            ChangedFileView {
                path,
                status,
                insertions: count_of(w[0]),
                deletions: count_of(w[1]),
            },
        )
    } else {
        None
    }
}

/// The files reported by the given `--numstat` lines, in order, the `k`-th
/// with the status of the `k`-th name-status entry.
pub open spec fn numstat_files(
    ls: Seq<Seq<char>>,
    statuses: Seq<(char, Seq<char>)>,
) -> Seq<ChangedFileView>
    decreases ls.len(),
{
    if ls.len() == 0 {
        seq![]
    } else {
        let rest = numstat_files(ls.drop_last(), statuses);
        match numstat_entry(ls.last(), status_at(statuses, rest.len() as int)) {
            Some(f) => rest.push(f),
            None => rest,
        }
    }
}

pub open spec fn file_views(v: Seq<ChangedFile>) -> Seq<ChangedFileView> {
    v.map_values(|f: ChangedFile| f@)
}

fn count_chars(word: &Vec<char>) -> (r: usize)
    ensures
        r as nat == count_of(word@),
{
    match parse_usize_chars(word) {
        Some(n) => n,
        None => 0,
    }
}

/// The entries that `git diff --name-status` output lists.
pub fn parse_name_status(stdout: &str) -> (r: Vec<(char, Vec<char>)>)
    ensures
        entry_views(r@) == name_statuses(lines(stdout@)),
{
    let text = chars_of(stdout);
    let ls = split_lines(&text);
    let mut entries: Vec<(char, Vec<char>)> = Vec::new();
    let mut i: usize = 0;
    while i < ls.len()
        invariant
            i <= ls@.len(),
            views_of(ls@) == lines(stdout@),
            entry_views(entries@) == name_statuses(views_of(ls@).subrange(0, i as int)),
        decreases ls.len() - i,
    {
        let ghost prefix = views_of(ls@).subrange(0, i + 1);
        assert(prefix.drop_last() =~= views_of(ls@).subrange(0, i as int));
        assert(prefix.last() == ls@[i as int]@);
        let f = split_on(&ls[i], '\t');
        if f.len() >= 2 && f[0].len() > 0 {
            assert(views_of(f@)[0] == f@[0]@);
            assert(views_of(f@).last() == f@[f@.len() - 1]@);
            let letter = f[0][0];
            let path = f[f.len() - 1].clone();
            let ghost before = entries@;
            entries.push((letter, path));
            assert(entry_views(entries@) =~= entry_views(before).push((letter, path@)));
        }
        i = i + 1;
    }
    assert(views_of(ls@).subrange(0, i as int) =~= views_of(ls@));
    entries
}

fn letter_status(c: char) -> (r: FileStatus)
    ensures
        r == status_letter(c),
{
    if c == 'A' {
        FileStatus::Added
    } else if c == 'D' {
        FileStatus::Deleted
    } else if c == 'R' {
        FileStatus::Renamed
    } else {
        FileStatus::Modified
    }
}

/// The status the name-status entries give the `k`-th changed file.
pub fn status_of_file(entries: &Vec<(char, Vec<char>)>, k: usize) -> (r: FileStatus)
    ensures
        r == status_at(entry_views(entries@), k as int),
{
    if k < entries.len() {
        letter_status(entries[k].0)
    } else {
        FileStatus::Modified
    }
}

/// Lists the changed files that `git diff --numstat` output reports, each
/// with the status that the `git diff --name-status` output of the same diff
/// gives it (the two list the files in the same order).
pub fn parse_numstat(stdout: &str, name_status: &str) -> (r: Vec<ChangedFile>)
    ensures
        file_views(r@) == numstat_files(lines(stdout@), name_statuses(lines(name_status@))),
{
    let entries = parse_name_status(name_status);
    let ghost st = name_statuses(lines(name_status@));
    let text = chars_of(stdout);
    let ls = split_lines(&text);
    let mut files: Vec<ChangedFile> = Vec::new();
    let mut i: usize = 0;
    while i < ls.len()
        invariant
            i <= ls@.len(),
            views_of(ls@) == lines(stdout@),
            entry_views(entries@) == st,
            file_views(files@) == numstat_files(views_of(ls@).subrange(0, i as int), st),
            files@.len() <= i,
        decreases ls.len() - i,
    {
        let ghost prefix = views_of(ls@).subrange(0, i + 1);
        assert(prefix.drop_last() =~= views_of(ls@).subrange(0, i as int));
        assert(prefix.last() == ls@[i as int]@);
        let w = split_words(&ls[i]);
        if w.len() >= 3 {
            let ins = count_chars(&w[0]);
            let del = count_chars(&w[1]);
            let path_chars = join_chars(&w, 2, ' ');
            let status = status_of_file(&entries, files.len());
            let path = string_from_chars(&path_chars);
            assert(views_of(w@).subrange(2, w@.len() as int) =~= views_of(
                w@.subrange(2, w@.len() as int),
            ));
            let ghost before = files@;
            files.push(ChangedFile { path, status, insertions: ins, deletions: del });
            assert(file_views(files@) =~= file_views(before).push(files@.last()@));
        }
        i = i + 1;
    }
    assert(views_of(ls@).subrange(0, i as int) =~= views_of(ls@));
    files
}

/// The error of a failed command: its error output, decoded leniently.
pub open spec fn failed_with(output: CommandOutput, e: Error) -> bool {
    e matches Error::CommandFailed(m) && m@ == utf8_lossy(output.stderr@)
}

/// What reading a finished command's output gives: the command's error output
/// when it failed, else its standard output decoded as UTF-8.
pub open spec fn output_read(output: CommandOutput, r: Result<String, Error>) -> bool {
    if !output.success {
        r matches Err(e) && failed_with(output, e)
    } else if valid_utf8(output.stdout@) {
        r matches Ok(s) && s@ == decode_utf8(output.stdout@)
    } else {
        r matches Err(Error::Utf8(_))
    }
}

/// Turns a finished git command into its output text: the command's error
/// output when it failed, else its standard output decoded as UTF-8.
pub fn output_text(output: CommandOutput) -> (r: Result<String, Error>)
    ensures
        output_read(output, r),
{
    if !output.success {
        return Err(Error::CommandFailed(string_from_utf8_lossy(output.stderr.as_slice())));
    }
    match string_from_utf8(output.stdout) {
        Ok(s) => Ok(s),
        Err(e) => Err(Error::Utf8(e)),
    }
}

/// The outcome of a git command whose output is not needed (`git apply`,
/// `git reset`, `git clean`): nothing when it succeeded, else its error
/// output, decoded leniently.
pub fn command_status(output: &CommandOutput) -> (r: Result<(), Error>)
    ensures
        output.success ==> r is Ok,
        !output.success ==> (r matches Err(e) && failed_with(*output, e)),
{
    if !output.success {
        return Err(Error::CommandFailed(string_from_utf8_lossy(output.stderr.as_slice())));
    }
    Ok(())
}

/// The text a git command gives as it was run: its standard output, when it
/// ran, succeeded and wrote UTF-8.
pub open spec fn run_text(run: Result<CommandOutput, std::io::Error>) -> Option<Seq<char>> {
    match run {
        Ok(o) => if o.success && valid_utf8(o.stdout@) {
            Some(decode_utf8(o.stdout@))
        } else {
            None
        },
        Err(_) => None,
    }
}

/// The error a git command that gave no text ends in: the I/O error that
/// kept it from running, its error output when it failed, or a UTF-8 error.
pub open spec fn run_failed(run: Result<CommandOutput, std::io::Error>, e: Error) -> bool {
    match run {
        Err(io) => e == Error::Io(io),
        Ok(o) => if !o.success {
            failed_with(o, e)
        } else {
            e is Utf8
        },
    }
}

/// The text of a git command as it was run, or the error it ends in.
pub fn run_output_text(run: Result<CommandOutput, std::io::Error>) -> (r: Result<String, Error>)
    ensures
        match run_text(run) {
            Some(t) => r matches Ok(s) && s@ == t,
            None => r matches Err(e) && run_failed(run, e),
        },
{
    match run {
        Err(e) => Err(Error::Io(e)),
        Ok(o) => output_text(o),
    }
}

/// Whether a git command whose output is not needed ran and succeeded.
pub open spec fn run_succeeded(run: Result<CommandOutput, std::io::Error>) -> bool {
    run matches Ok(o) && o.success
}

/// The error of a git command that did not run or failed.
pub open spec fn run_status_failed(run: Result<CommandOutput, std::io::Error>, e: Error) -> bool {
    match run {
        Err(io) => e == Error::Io(io),
        Ok(o) => failed_with(o, e),
    }
}

/// The outcome of a git command whose output is not needed, as it was run.
pub fn run_status(run: Result<CommandOutput, std::io::Error>) -> (r: Result<(), Error>)
    ensures
        run_succeeded(run) ==> r is Ok,
        !run_succeeded(run) ==> (r matches Err(e) && run_status_failed(run, e)),
{
    match run {
        Err(e) => Err(Error::Io(e)),
        Ok(o) => command_status(&o),
    }
}

/// The error for a path without a `.git` entry.
pub open spec fn not_a_repo(repo_path: Seq<char>, e: Error) -> bool {
    e matches Error::NotGitRepo(p) && p@ == repo_path
}

/// The files or the error of a listing, by their views.
pub open spec fn files_result(r: Result<Vec<ChangedFile>, Error>) -> Result<
    Seq<ChangedFileView>,
    Error,
> {
    match r {
        Ok(files) => Ok(file_views(files@)),
        Err(e) => Err(e),
    }
}

/// What reading the text of a git command gives, from what running it gave:
/// the text, or the error it ends in.
pub open spec fn text_given(a: Result<CommandOutput, std::io::Error>, r: Result<String, Error>) -> bool {
    match run_text(a) {
        Some(t) => r matches Ok(s) && s@ == t,
        None => r matches Err(e) && run_failed(a, e),
    }
}

/// What a diff of a repository gives: `NotGitRepo` for a path without
/// `.git`, where `run_diff` is not called; else the text of what running it
/// gave, or the error that ends in.
pub open spec fn diff_read<F: FnOnce() -> Result<CommandOutput, std::io::Error>>(
    repo_path: Seq<char>,
    git_dir_exists: bool,
    run_diff: F,
    r: Result<String, Error>,
) -> bool {
    if !git_dir_exists {
        r matches Err(e) && not_a_repo(repo_path, e)
    } else {
        exists|a: Result<CommandOutput, std::io::Error>|
            #[trigger] call_ensures(run_diff, (), a) && text_given(a, r)
    }
}

/// What listing the changed files gives, from what `git diff HEAD --numstat`
/// gave (`a`) and, when that gave text, what `git diff HEAD --name-status`
/// gave (`b`): the first error, or the files the first lists with the status
/// the second gives them.
pub open spec fn files_given(
    a: Result<CommandOutput, std::io::Error>,
    b: Result<CommandOutput, std::io::Error>,
    r: Result<Seq<ChangedFileView>, Error>,
) -> bool {
    match run_text(a) {
        None => r matches Err(e) && run_failed(a, e),
        Some(t1) => match run_text(b) {
            None => r matches Err(e) && run_failed(b, e),
            Some(t2) => r == Ok::<Seq<ChangedFileView>, Error>(
                numstat_files(lines(t1), name_statuses(lines(t2))),
            ),
        },
    }
}

/// What listing the changed files of a repository gives: `NotGitRepo` for a
/// path without `.git`, where no command runs; else [`files_given`] what
/// `run_numstat` gave and, only when that gave text, what `run_name_status`
/// gave.
pub open spec fn listed<
    F1: FnOnce() -> Result<CommandOutput, std::io::Error>,
    F2: FnOnce() -> Result<CommandOutput, std::io::Error>,
>(
    repo_path: Seq<char>,
    git_dir_exists: bool,
    run_numstat: F1,
    run_name_status: F2,
    r: Result<Seq<ChangedFileView>, Error>,
) -> bool {
    if !git_dir_exists {
        r matches Err(e) && not_a_repo(repo_path, e)
    } else {
        exists|a: Result<CommandOutput, std::io::Error>|
            #[trigger] call_ensures(run_numstat, (), a) && if run_text(a) is None {
                files_given(a, a, r)
            } else {
                exists|b: Result<CommandOutput, std::io::Error>|
                    #[trigger] call_ensures(run_name_status, (), b) && files_given(a, b, r)
            }
    }
}

/// What the diff summary of a repository gives: the error that listing its
/// files ends in, or the summary of those files.
pub open spec fn summary_listed<
    F1: FnOnce() -> Result<CommandOutput, std::io::Error>,
    F2: FnOnce() -> Result<CommandOutput, std::io::Error>,
>(
    repo_path: Seq<char>,
    git_dir_exists: bool,
    run_numstat: F1,
    run_name_status: F2,
    r: Result<Option<DiffSummary>, Error>,
) -> bool {
    exists|l: Result<Seq<ChangedFileView>, Error>|
        #[trigger] listed(repo_path, git_dir_exists, run_numstat, run_name_status, l) && match l {
            Err(e) => r == Err::<Option<DiffSummary>, Error>(e),
            Ok(files) => r matches Ok(o) && summarized(files, o),
        }
}

/// Two errors of the same kind with the same message (the text of a UTF-8
/// error is not compared).
pub open spec fn same_error(e1: Error, e2: Error) -> bool {
    match e1 {
        Error::CommandFailed(m1) => e2 matches Error::CommandFailed(m2) && m1@ == m2@,
        Error::Io(x) => e2 matches Error::Io(y) && x == y,
        Error::Utf8(_) => e2 is Utf8,
        Error::NotGitRepo(p1) => e2 matches Error::NotGitRepo(p2) && p1@ == p2@,
    }
}

/// Two commands that can give one output only, the same.
pub open spec fn same_output<
    F: FnOnce() -> Result<CommandOutput, std::io::Error>,
    G: FnOnce() -> Result<CommandOutput, std::io::Error>,
>(f: F, g: G) -> bool {
    forall|x: Result<CommandOutput, std::io::Error>, y: Result<CommandOutput, std::io::Error>|
        #[trigger] call_ensures(f, (), x) && #[trigger] call_ensures(g, (), y) ==> x == y
}

/// Whether `o` is the summary of the files: how many, and their total
/// insertions and deletions; `None` when a total exceeds `usize`.
pub open spec fn summarized(files: Seq<ChangedFileView>, o: Option<DiffSummary>) -> bool {
    match o {
        Some(s) => {
            &&& s.files_changed == files.len()
            &&& s.insertions == total_insertions(files)
            &&& s.deletions == total_deletions(files)
        },
        None => total_insertions(files) > usize::MAX || total_deletions(files) > usize::MAX,
    }
}

/// Sum of the insertions of the given files.
pub open spec fn total_insertions(files: Seq<ChangedFileView>) -> nat
    decreases files.len(),
{
    if files.len() == 0 {
        0
    } else {
        total_insertions(files.drop_last()) + files.last().insertions
    }
}

/// Sum of the deletions of the given files.
pub open spec fn total_deletions(files: Seq<ChangedFileView>) -> nat
    decreases files.len(),
{
    if files.len() == 0 {
        0
    } else {
        total_deletions(files.drop_last()) + files.last().deletions
    }
}

pub open spec fn arg_views(args: Seq<&str>) -> Seq<Seq<char>> {
    args.map_values(|a: &str| a@)
}

/// The arguments of `git diff HEAD`: the working tree diff, staged and
/// unstaged changes together.
pub fn diff_args() -> (r: Vec<&'static str>)
    ensures
        arg_views(r@) == seq!["diff"@, "HEAD"@],
{
    let r = vec!["diff", "HEAD"];
    assert(arg_views(r@) =~= seq!["diff"@, "HEAD"@]);
    r
}

/// The arguments of the command whose output [`parse_numstat`] reads: the
/// line counts of each changed file.
pub fn numstat_args() -> (r: Vec<&'static str>)
    ensures
        arg_views(r@) == seq!["diff"@, "HEAD"@, "--numstat"@],
{
    let r = vec!["diff", "HEAD", "--numstat"];
    assert(arg_views(r@) =~= seq!["diff"@, "HEAD"@, "--numstat"@]);
    r
}

/// The arguments of the command whose output [`parse_name_status`] reads:
/// the status of each changed file, in the order `--numstat` lists them.
pub fn name_status_args() -> (r: Vec<&'static str>)
    ensures
        arg_views(r@) == seq!["diff"@, "HEAD"@, "--name-status"@],
{
    let r = vec!["diff", "HEAD", "--name-status"];
    assert(arg_views(r@) =~= seq!["diff"@, "HEAD"@, "--name-status"@]);
    r
}

/// Git service for diff and patch operations.
pub struct GitService;

impl GitService {
    pub fn new() -> (r: GitService) {
        GitService
    }

    /// Verifies that the path is a git repository, given whether it holds a
    /// `.git` entry.
    pub fn verify_git_repo(&self, repo_path: &str, git_dir_exists: bool) -> (r: Result<(), Error>)
        ensures
            git_dir_exists ==> r is Ok,
            !git_dir_exists ==> (r matches Err(Error::NotGitRepo(p)) && p@ == repo_path@),
    {
        if !git_dir_exists {
            return Err(Error::NotGitRepo(String::from_str(repo_path)));
        }
        Ok(())
    }

    /// The working tree diff (unstaged and staged changes) of a repository:
    /// `NotGitRepo` for a path without `.git`, where `run_diff` (running
    /// `git diff HEAD`) is not called; else the text that command gives, or
    /// its error.
    pub fn get_working_tree_diff<F: FnOnce() -> Result<CommandOutput, std::io::Error>>(
        &self,
        repo_path: &str,
        git_dir_exists: bool,
        run_diff: F,
    ) -> (r: Result<String, Error>)
        requires
            git_dir_exists ==> call_requires(run_diff, ()),
        ensures
            diff_read(repo_path@, git_dir_exists, run_diff, r),
    {
        self.verify_git_repo(repo_path, git_dir_exists)?;
        let a = run_diff();
        let r = run_output_text(a);
        assert(call_ensures(run_diff, (), a) && text_given(a, r));
        r
    }

    /// The patch for the current changes: the working tree diff.
    pub fn generate_patch<F: FnOnce() -> Result<CommandOutput, std::io::Error>>(
        &self,
        repo_path: &str,
        git_dir_exists: bool,
        run_diff: F,
    ) -> (r: Result<String, Error>)
        requires
            git_dir_exists ==> call_requires(run_diff, ()),
        ensures
            diff_read(repo_path@, git_dir_exists, run_diff, r),
    {
        self.get_working_tree_diff(repo_path, git_dir_exists, run_diff)
    }

    /// The changed files of a repository, with their status: `run_numstat`
    /// runs `git diff HEAD --numstat`, then `run_name_status` runs
    /// `git diff HEAD --name-status`; see [`listed`].
    pub fn list_changed_files<
        F1: FnOnce() -> Result<CommandOutput, std::io::Error>,
        F2: FnOnce() -> Result<CommandOutput, std::io::Error>,
    >(&self, repo_path: &str, git_dir_exists: bool, run_numstat: F1, run_name_status: F2) -> (r:
        Result<Vec<ChangedFile>, Error>)
        requires
            git_dir_exists ==> call_requires(run_numstat, ()),
            git_dir_exists ==> call_requires(run_name_status, ()),
        ensures
            listed(repo_path@, git_dir_exists, run_numstat, run_name_status, files_result(r)),
    {
        if !git_dir_exists {
            return Err(Error::NotGitRepo(String::from_str(repo_path)));
        }
        let a = run_numstat();
        assert(call_ensures(run_numstat, (), a));
        let numstat = match run_output_text(a) {
            Ok(t) => t,
            Err(e) => {
                assert(files_given(a, a, Err(e)));
                return Err(e);
            },
        };
        let b = run_name_status();
        assert(call_ensures(run_name_status, (), b));
        let name_status = match run_output_text(b) {
            Ok(t) => t,
            Err(e) => {
                assert(files_given(a, b, Err(e)));
                return Err(e);
            },
        };
        let files = parse_numstat(numstat.as_str(), name_status.as_str());
        assert(files_given(a, b, files_result(Ok::<Vec<ChangedFile>, Error>(files))));
        Ok(files)
    }

    /// Diff summary statistics of a repository: the summary of the files that
    /// listing them gives (`None` when a total exceeds `usize`), or the error
    /// that listing them ends in.
    pub fn get_diff_summary<
        F1: FnOnce() -> Result<CommandOutput, std::io::Error>,
        F2: FnOnce() -> Result<CommandOutput, std::io::Error>,
    >(&self, repo_path: &str, git_dir_exists: bool, run_numstat: F1, run_name_status: F2) -> (r:
        Result<Option<DiffSummary>, Error>)
        requires
            git_dir_exists ==> call_requires(run_numstat, ()),
            git_dir_exists ==> call_requires(run_name_status, ()),
        ensures
            summary_listed(repo_path@, git_dir_exists, run_numstat, run_name_status, r),
    {
        let listing = self.list_changed_files(repo_path, git_dir_exists, run_numstat, run_name_status);
        assert(listed(repo_path@, git_dir_exists, run_numstat, run_name_status, files_result(listing)));
        match listing {
            Ok(files) => Ok(self.summarize(&files)),
            Err(e) => Err(e),
        }
    }

    /// Diff summary statistics of the changed files: how many, and the total
    /// insertions and deletions; `None` when a total exceeds `usize`.
    pub fn summarize(&self, files: &Vec<ChangedFile>) -> (r: Option<DiffSummary>)
        ensures
            summarized(file_views(files@), r),
    {
        let mut ins: usize = 0;
        let mut del: usize = 0;
        let mut ins_ok = true;
        let mut del_ok = true;
        let mut i: usize = 0;
        while i < files.len()
            invariant
                i <= files@.len(),
                ins_ok ==> ins == total_insertions(file_views(files@.subrange(0, i as int))),
                !ins_ok ==> total_insertions(file_views(files@.subrange(0, i as int)))
                    > usize::MAX,
                del_ok ==> del == total_deletions(file_views(files@.subrange(0, i as int))),
                !del_ok ==> total_deletions(file_views(files@.subrange(0, i as int)))
                    > usize::MAX,
            decreases files.len() - i,
        {
            let ghost prev = file_views(files@.subrange(0, i as int));
            let ghost next = file_views(files@.subrange(0, i + 1));
            assert(next.drop_last() =~= prev);
            assert(next.last() == files@[i as int]@);
            let f = &files[i];
            if ins_ok {
                if f.insertions <= usize::MAX - ins {
                    ins = ins + f.insertions;
                } else {
                    ins_ok = false;
                }
            }
            if del_ok {
                if f.deletions <= usize::MAX - del {
                    del = del + f.deletions;
                } else {
                    del_ok = false;
                }
            }
            i = i + 1;
        }
        proof {
            lemma_totals_grow(file_views(files@), i as int);
        }
        assert(files@.subrange(0, i as int) =~= files@);
        if ins_ok && del_ok {
            Some(DiffSummary { files_changed: files.len(), insertions: ins, deletions: del })
        } else {
            None
        }
    }
}

proof fn lemma_totals_grow(files: Seq<ChangedFileView>, i: int)
    requires
        0 <= i <= files.len(),
    ensures
        total_insertions(files.subrange(0, i)) <= total_insertions(files),
        total_deletions(files.subrange(0, i)) <= total_deletions(files),
    decreases files.len() - i,
{
    if i < files.len() {
        lemma_totals_grow(files, i + 1);
        assert(files.subrange(0, i + 1).drop_last() =~= files.subrange(0, i));
    } else {
        assert(files.subrange(0, i) =~= files);
    }
}

/// Running a diff twice on one repository state gives the same answer: two
/// reads of commands that can only give the same output agree on success,
/// on the text, and on the kind and message of the error. So
/// `generate_patch` is `get_working_tree_diff` on the same state.
pub proof fn lemma_patch_is_diff<
    F: FnOnce() -> Result<CommandOutput, std::io::Error>,
    G: FnOnce() -> Result<CommandOutput, std::io::Error>,
>(
    repo_path: Seq<char>,
    git_dir_exists: bool,
    f: F,
    g: G,
    r1: Result<String, Error>,
    r2: Result<String, Error>,
)
    requires
        same_output(f, g),
        diff_read(repo_path, git_dir_exists, f, r1),
        diff_read(repo_path, git_dir_exists, g, r2),
    ensures
        r1 is Ok <==> r2 is Ok,
        r1 matches Ok(s1) ==> (r2 matches Ok(s2) && s1@ == s2@),
        r1 matches Err(e1) ==> (r2 matches Err(e2) && same_error(e1, e2)),
{
    if git_dir_exists {
        let a = choose|a: Result<CommandOutput, std::io::Error>|
            #[trigger] call_ensures(f, (), a) && text_given(a, r1);
        let b = choose|b: Result<CommandOutput, std::io::Error>|
            #[trigger] call_ensures(g, (), b) && text_given(b, r2);
        assert(a == b);
    }
}

/// The diff summary of a repository is the summary of its listed files, on
/// one repository state: with commands that can only give the same outputs,
/// the summary is `Ok` exactly when the listing is, then it sums up the
/// listed files, and else it fails with the listing's error.
pub proof fn lemma_summary_of_listing<
    F1: FnOnce() -> Result<CommandOutput, std::io::Error>,
    F2: FnOnce() -> Result<CommandOutput, std::io::Error>,
    G1: FnOnce() -> Result<CommandOutput, std::io::Error>,
    G2: FnOnce() -> Result<CommandOutput, std::io::Error>,
>(
    repo_path: Seq<char>,
    git_dir_exists: bool,
    f1: F1,
    f2: F2,
    g1: G1,
    g2: G2,
    l: Result<Seq<ChangedFileView>, Error>,
    s: Result<Option<DiffSummary>, Error>,
)
    requires
        same_output(f1, g1),
        same_output(f2, g2),
        listed(repo_path, git_dir_exists, f1, f2, l),
        summary_listed(repo_path, git_dir_exists, g1, g2, s),
    ensures
        l is Ok <==> s is Ok,
        l matches Ok(files) ==> (s matches Ok(o) && summarized(files, o)),
        l matches Err(e1) ==> (s matches Err(e2) && same_error(e1, e2)),
{
    let l2 = choose|l2: Result<Seq<ChangedFileView>, Error>|
        #[trigger] listed(repo_path, git_dir_exists, g1, g2, l2) && match l2 {
            Err(e) => s == Err::<Option<DiffSummary>, Error>(e),
            Ok(files) => s matches Ok(o) && summarized(files, o),
        };
    if git_dir_exists {
        let a = choose|a: Result<CommandOutput, std::io::Error>|
            #[trigger] call_ensures(f1, (), a) && if run_text(a) is None {
                files_given(a, a, l)
            } else {
                exists|b: Result<CommandOutput, std::io::Error>|
                    #[trigger] call_ensures(f2, (), b) && files_given(a, b, l)
            };
        let a2 = choose|a: Result<CommandOutput, std::io::Error>|
            #[trigger] call_ensures(g1, (), a) && if run_text(a) is None {
                files_given(a, a, l2)
            } else {
                exists|b: Result<CommandOutput, std::io::Error>|
                    #[trigger] call_ensures(g2, (), b) && files_given(a, b, l2)
            };
        assert(a == a2);
        if run_text(a) is Some {
            let b = choose|b: Result<CommandOutput, std::io::Error>|
                #[trigger] call_ensures(f2, (), b) && files_given(a, b, l);
            let b2 = choose|b: Result<CommandOutput, std::io::Error>|
                #[trigger] call_ensures(g2, (), b) && files_given(a, b, l2);
            assert(b == b2);
        }
    }
}

} // verus!
