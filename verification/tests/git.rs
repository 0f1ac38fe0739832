use cox_runtime::git::{
    diff_args, name_status_args, numstat_args, parse_name_status, parse_numstat, ChangedFile, CommandOutput, Error, FileStatus, GitService,
};
use std::path::Path;

fn file(path: &str, insertions: usize, deletions: usize) -> ChangedFile {
    ChangedFile { path: path.to_string(), status: FileStatus::Modified, insertions, deletions }
}

fn ran(stdout: &[u8]) -> Result<CommandOutput, std::io::Error> {
    Ok(CommandOutput { success: true, stdout: stdout.to_vec(), stderr: Vec::new() })
}

fn failed(stderr: &[u8]) -> Result<CommandOutput, std::io::Error> {
    Ok(CommandOutput { success: false, stdout: Vec::new(), stderr: stderr.to_vec() })
}

fn not_run() -> Result<CommandOutput, std::io::Error> {
    panic!("no git command may run outside a repository")
}

#[test]
fn creates_service() {
    let _service = GitService::new();
}

#[test]
fn detects_non_git_repo() {
    let service = GitService::new();
    let path = "/tmp";
    let result = service.get_working_tree_diff(path, Path::new(path).join(".git").exists(), not_run);
    assert!(result.is_err());
}

#[test]
fn names_the_repo_that_is_not_one() {
    let service = GitService::new();
    assert!(matches!(service.verify_git_repo("/x", false), Err(Error::NotGitRepo(p)) if p == "/x"));
    assert!(service.verify_git_repo("/x", true).is_ok());
}

#[test]
fn diff_outside_a_repository_runs_nothing() {
    let service = GitService::new();
    assert!(matches!(service.get_working_tree_diff("/tmp", false, not_run), Err(Error::NotGitRepo(p)) if p == "/tmp"));
    assert!(matches!(service.get_diff_summary("/tmp", false, not_run, not_run), Err(Error::NotGitRepo(_))));
    assert!(matches!(service.list_changed_files("/tmp", false, not_run, not_run), Err(Error::NotGitRepo(_))));
}

#[test]
fn numstat_lines_become_changed_files() {
    let out = "10\t2\tsrc/a.rs\n-\t-\tassets/logo.png\n5\t0\tnew file.rs\n0\t3\told.rs\n\nbogus\n";
    let statuses = "M\tsrc/a.rs\nM\tassets/logo.png\nA\tnew file.rs\nD\told.rs\n";
    let files = parse_numstat(out, statuses);
    assert_eq!(files.len(), 4);
    assert_eq!(files[0].path, "src/a.rs");
    assert_eq!(files[0].status, FileStatus::Modified);
    assert_eq!((files[0].insertions, files[0].deletions), (10, 2));
    assert_eq!(files[1].path, "assets/logo.png");
    assert_eq!((files[1].insertions, files[1].deletions), (0, 0));
    assert_eq!(files[1].status, FileStatus::Modified);
    assert_eq!(files[2].path, "new file.rs");
    assert_eq!(files[2].status, FileStatus::Added);
    assert_eq!(files[3].status, FileStatus::Deleted);
}

#[test]
fn appended_lines_leave_a_tracked_file_modified() {
    let files = parse_numstat("2\t0\ta.txt\n", "M\ta.txt\n");
    assert_eq!(files.len(), 1);
    assert_eq!(files[0].path, "a.txt");
    assert_eq!(files[0].status, FileStatus::Modified);
    assert_eq!((files[0].insertions, files[0].deletions), (2, 0));
}

#[test]
fn name_status_entries() {
    let e = parse_name_status("M\tsrc/a.rs\nR100\told.rs\tnew.rs\nnonsense\n\nA\tb\n");
    assert_eq!(e.len(), 3);
    assert_eq!(e[0].0, 'M');
    assert_eq!(e[1].0, 'R');
    assert_eq!(e[1].1.iter().collect::<String>(), "new.rs");
    assert_eq!(e[2].0, 'A');
    let files = parse_numstat("1\t1\tnew.rs\n3\t0\tunlisted.rs\n", "R100\told.rs\tnew.rs\n");
    assert_eq!(files[0].status, FileStatus::Renamed);
    assert_eq!(files[1].status, FileStatus::Modified);
}

#[test]
fn summary_adds_up_the_files() {
    let service = GitService::new();
    let files = vec![file("a", 10, 2), file("b", 0, 7), file("c", 5, 0)];
    let s = service.summarize(&files).unwrap();
    assert_eq!(s.files_changed, 3);
    assert_eq!(s.insertions, 15);
    assert_eq!(s.deletions, 9);
    let empty = service.summarize(&Vec::new()).unwrap();
    assert_eq!((empty.files_changed, empty.insertions, empty.deletions), (0, 0, 0));
}

#[test]
fn summary_overflow_is_none() {
    let service = GitService::new();
    let files = vec![file("a", usize::MAX, 0), file("b", 1, 0)];
    assert!(service.summarize(&files).is_none());
}

#[test]
fn summary_of_a_repository() {
    let service = GitService::new();
    let s = service
        .get_diff_summary("/repo", true, || ran(b"3\t1\ta.rs\n4\t0\tb.rs\n"), || ran(b"M\ta.rs\nA\tb.rs\n"));
    match s {
        Ok(Some(s)) => assert_eq!((s.files_changed, s.insertions, s.deletions), (2, 7, 1)),
        _ => panic!("expected a summary"),
    }
    let e = service.get_diff_summary("/repo", true, || failed(b"fatal: bad"), not_run);
    assert!(matches!(e, Err(Error::CommandFailed(m)) if m == "fatal: bad"));
}

#[test]
fn failed_command_reports_its_stderr() {
    let service = GitService::new();
    match service.get_working_tree_diff("/repo", true, || failed(b"fatal: bad \xffrevision")) {
        Err(Error::CommandFailed(m)) => assert_eq!(m, "fatal: bad \u{fffd}revision"),
        _ => panic!("expected command failure"),
    }
}

#[test]
fn diff_text_is_the_stdout() {
    let service = GitService::new();
    match service.generate_patch("/repo", true, || ran(b"diff --git a b\n")) {
        Ok(t) => assert_eq!(t, "diff --git a b\n"),
        Err(_) => panic!("expected the patch"),
    }
    assert!(matches!(service.get_working_tree_diff("/repo", true, || ran(&[0xc3])), Err(Error::Utf8(_))));
    let io = service.get_working_tree_diff("/repo", true, || {
        Err(std::io::Error::new(std::io::ErrorKind::NotFound, "no git"))
    });
    match io {
        Err(e) => {
            assert!(matches!(e, Error::Io(_)));
            assert_eq!(e.message(), "io error: no git");
        }
        Ok(_) => panic!("expected an I/O error"),
    }
}

#[test]
fn changed_files_from_command_output() {
    let service = GitService::new();
    match service.list_changed_files("/repo", true, || ran(b"1\t1\tx.rs\n"), || ran(b"M\tx.rs\n")) {
        Ok(files) => {
            assert_eq!(files.len(), 1);
            assert_eq!(files[0].path, "x.rs");
            assert_eq!(files[0].status, FileStatus::Modified);
        }
        Err(_) => panic!("expected files"),
    }
    let e = service.list_changed_files("/repo", true, || ran(b"1\t1\tx.rs\n"), || failed(b"no"));
    assert!(matches!(e, Err(Error::CommandFailed(m)) if m == "no"));
}

#[test]
fn git_error_messages() {
    assert_eq!(Error::CommandFailed("x".into()).message(), "git command failed: x");
    assert_eq!(Error::NotGitRepo("/p".into()).message(), "not a git repository: /p");
}

#[test]
fn git_command_lines() {
    assert_eq!(diff_args(), vec!["diff", "HEAD"]);
    assert_eq!(numstat_args(), vec!["diff", "HEAD", "--numstat"]);
    assert_eq!(name_status_args(), vec!["diff", "HEAD", "--name-status"]);
}

#[test]
fn a_rename_is_one_entry() {
    let files = parse_numstat("1\t0\told.rs => new.rs\n2\t2\tsrc/x.rs\n", "R090\told.rs\tnew.rs\nM\tsrc/x.rs\n");
    assert_eq!(files.len(), 2);
    assert_eq!(files[0].path, "old.rs => new.rs");
    assert_eq!(files[0].status, FileStatus::Renamed);
    assert_eq!(files[1].status, FileStatus::Modified);
}
