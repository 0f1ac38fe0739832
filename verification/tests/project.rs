use cox_runtime::ids::{Timestamp, Uuid};
use cox_runtime::models::Project;
use cox_runtime::project::Error as ProjectError;
use cox_runtime::project::{
    check_path, current_branch_from_head, get_repo_status, open_project, open_project_at,
    project_name,
};
use std::path::Path;

fn now() -> Timestamp {
    let t = chrono::Utc::now();
    Timestamp { secs: t.timestamp(), nanos: t.timestamp_subsec_nanos() }
}

#[test]
fn opens_existing_directory() {
    let path = "/tmp";
    let result = check_path(path, Path::new(path).exists());
    assert!(result.is_ok());
    let canonical = Path::new(path).canonicalize().unwrap().to_string_lossy().to_string();
    let is_git = Path::new(&canonical).join(".git").exists();
    let project = match open_project_at(path, Some(canonical), None, true, is_git, None, now()) {
        Ok(p) => p,
        Err(e) => panic!("unexpected error: {}", e.message()),
    };
    assert_eq!(project.name, "tmp");
}

#[test]
fn rejects_nonexistent_path() {
    let path = "/this/does/not/exist/hopefully";
    let result = check_path(path, Path::new(path).exists());
    assert!(matches!(result, Err(ProjectError::PathNotFound(_))));
    let opened = open_project_at(path, None, None, true, false, None, now());
    assert!(matches!(opened, Err(ProjectError::PathNotFound(p)) if p == path));
}

#[test]
fn project_names() {
    assert_eq!(project_name("/home/me/code/app"), "app");
    assert_eq!(project_name("/home/me/code/app/"), "app");
    assert_eq!(project_name("/home/me/code/app/."), "app");
    assert_eq!(project_name("/"), "unnamed");
    assert_eq!(project_name("/a/.."), "unnamed");
    assert_eq!(project_name(""), "unnamed");
}

#[test]
fn branch_from_head_file() {
    assert_eq!(current_branch_from_head("ref: refs/heads/main\n"), "main");
    assert_eq!(current_branch_from_head("ref: refs/heads/feature/x  \n"), "feature/x");
    assert_eq!(current_branch_from_head("4b825dc642cb6eb9a060e54bf8d69288fbee4904\n"), "(detached)");
}

#[test]
fn reopening_keeps_identity() {
    let t = now();
    let first = open_project(None, "/p/app".to_string(), true, true, Some("ref: refs/heads/dev\n".to_string()), t);
    assert_eq!(first.created_at, t);
    assert_eq!(first.current_branch, Some("dev".to_string()));
    assert!(first.is_git_repo);
    assert_eq!(first.created_at, first.last_opened_at);
    let stored = Project {
        id: first.id,
        name: first.name.clone(),
        path: first.path.clone(),
        is_git_repo: first.is_git_repo,
        current_branch: first.current_branch.clone(),
        created_at: Timestamp { secs: 1, nanos: 0 },
        last_opened_at: Timestamp { secs: 1, nanos: 0 },
    };
    let later = Timestamp { secs: t.secs + 5, nanos: 0 };
    let again = open_project(Some(&stored), "/p/app".to_string(), true, false, None, later);
    assert_eq!(again.last_opened_at, later);
    assert_eq!(again.id, first.id);
    assert_eq!(again.created_at, Timestamp { secs: 1, nanos: 0 });
    assert_eq!(again.current_branch, None);
    assert_eq!(again.path, "/p/app");
}

#[test]
fn unreadable_head_gives_no_branch() {
    let p = open_project(None, "/p/app".to_string(), true, true, None, now());
    assert_eq!(p.current_branch, None);
    assert_ne!(p.id, Uuid(0));
}

#[test]
fn repo_status_is_a_clean_main() {
    let s = match get_repo_status("/anywhere") {
        Ok(s) => s,
        Err(_) => panic!("expected a status"),
    };
    assert_eq!(s.branch, "main");
    assert!(!s.dirty);
    assert_eq!((s.ahead, s.behind), (0, 0));
}

#[test]
fn project_error_messages() {
    assert_eq!(ProjectError::PathNotFound("/x".to_string()).message(), "project path does not exist: /x");
    assert_eq!(ProjectError::Storage("locked".to_string()).message(), "storage error: locked");
    assert_eq!(ProjectError::Git("no HEAD".to_string()).message(), "git error: no HEAD");
}

#[test]
fn a_name_that_is_not_text_is_unnamed() {
    let p = open_project(None, "/p/\u{fffd}x".to_string(), false, false, None, now());
    assert_eq!(p.name, "unnamed");
    let q = open_project(None, "/p/\u{fffd}x".to_string(), true, false, None, now());
    assert_eq!(q.name, "\u{fffd}x");
}
