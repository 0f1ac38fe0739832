use cox_runtime::git::CommandOutput;
use cox_runtime::ids::{Timestamp, Uuid};
use cox_runtime::worktree::{WorktreeError, WorktreeService};

#[test]
fn parses_porcelain_list() {
    let service = WorktreeService::new(".cox/worktrees".to_string());
    let out = "worktree /repo\nHEAD abc123\nbranch refs/heads/main\n\nworktree /repo/.cox/worktrees/f\nHEAD def456\ndetached\n\nworktree /bare\nbare\n";
    let list = match service.parse_worktree_list(out) {
        Ok(l) => l,
        Err(_) => panic!("parse never fails"),
    };
    assert_eq!(list.len(), 3);
    assert_eq!(list[0].path, "/repo");
    assert_eq!(list[0].head_sha, "abc123");
    assert_eq!(list[0].branch, Some("refs/heads/main".to_string()));
    assert!(!list[0].is_detached);
    assert_eq!(list[1].head_sha, "def456");
    assert!(list[1].is_detached);
    assert_eq!(list[1].branch, None);
    assert!(list[2].is_bare);
}

#[test]
fn empty_list() {
    let service = WorktreeService::new("w".to_string());
    assert!(matches!(service.parse_worktree_list(""), Ok(l) if l.is_empty()));
    assert!(matches!(service.parse_worktree_list("\n\nHEAD x\n"), Ok(l) if l.is_empty()));
}

#[test]
fn branch_and_path_of_a_new_worktree() {
    let service = WorktreeService::new(".cox/worktrees".to_string());
    assert_eq!(WorktreeService::branch_name("feature-1"), "cox/feature-1");
    assert_eq!(service.worktree_path("feature-1"), ".cox/worktrees/feature-1");
    assert_eq!(service.worktree_path("/abs"), "/abs");
    let slash = WorktreeService::new("base/".to_string());
    assert_eq!(slash.worktree_path("x"), "base/x");
    let w = WorktreeService::new_worktree(Uuid(1), "feature-1", "/p".to_string(), "abc".to_string(), Timestamp { secs: 4, nanos: 0 });
    assert_eq!(w.created_at, Timestamp { secs: 4, nanos: 0 });
    assert_eq!(w.branch, "cox/feature-1");
    assert!(!w.is_active);
    assert_eq!(w.project_id, Uuid(1));
}

#[test]
fn command_results() {
    let ok = CommandOutput { success: true, stdout: b"  abc123\n".to_vec(), stderr: Vec::new() };
    assert!(matches!(WorktreeService::head_sha_from_output(ok), Ok(s) if s == "abc123"));
    let bad = CommandOutput { success: false, stdout: Vec::new(), stderr: b"boom".to_vec() };
    assert!(matches!(WorktreeService::add_result(&bad), Err(WorktreeError::Failed(m)) if m == "git worktree add failed: boom"));
    assert!(matches!(WorktreeService::remove_result(&bad), Err(WorktreeError::Failed(m)) if m == "git worktree remove failed: boom"));
    let service = WorktreeService::new("w".to_string());
    assert!(matches!(service.list_from_output(bad), Err(WorktreeError::Failed(m)) if m == "git worktree list failed: boom"));
    let listed = CommandOutput { success: true, stdout: b"worktree /r\nHEAD 1\n".to_vec(), stderr: Vec::new() };
    assert!(matches!(service.list_from_output(listed), Ok(l) if l.len() == 1));
}

#[test]
fn verify_repo() {
    let service = WorktreeService::new("w".to_string());
    assert!(matches!(service.verify_git_repo("/nope", false), Err(WorktreeError::NotGitRepo(p)) if p == "/nope"));
    assert!(service.verify_git_repo("/yes", true).is_ok());
}

#[test]
fn test_verify_git_repo() {
    let service = WorktreeService::new("/tmp/worktrees".to_string());
    let non_repo = std::path::Path::new("/tmp");
    let result = service.verify_git_repo("/tmp", non_repo.join(".git").exists());
    assert!(result.is_err());
}

#[test]
fn new_worktrees_need_a_free_path() {
    assert!(WorktreeService::check_new_path("/w/f", false).is_ok());
    assert!(matches!(WorktreeService::check_new_path("/w/f", true), Err(WorktreeError::PathExists(p)) if p == "/w/f"));
}

#[test]
fn worktree_error_messages() {
    assert_eq!(WorktreeError::NotGitRepo("/tmp/x".into()).message(), "Not a git repository: \"/tmp/x\"");
    assert_eq!(WorktreeError::PathExists("/w/f".into()).message(), "Worktree path already exists: \"/w/f\"");
    assert_eq!(WorktreeError::Failed("git worktree add failed: boom".into()).message(), "git worktree add failed: boom");
}
