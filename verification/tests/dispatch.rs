use cox_runtime::dispatch::{
    answer, exit_code_after, failure, handle, on_frame, parse_error, project_not_found, terminal_cwd, Command,
    Failure, Outcome, Stage,
};
use cox_runtime::framing::FrameError;
use cox_runtime::ids::Timestamp;
use cox_runtime::models::Project;
use cox_runtime::rpc::PARSE_ERROR;
use cox_runtime::ids::Uuid;
use cox_runtime::rpc::{
    ParamValue, Params, Reply, Request, HANDLER_ERROR, INVALID_PARAMS, METHOD_NOT_FOUND,
    PROTOCOL_VERSION,
};
use serde_json::Value;

const RUNTIME_VERSION: &str = "0.1.0";

fn req(method: &str, id: Option<Value>, params: Vec<(&str, ParamValue)>) -> Request {
    let mut p = Params::new();
    for (k, v) in params {
        p.push(k.to_string(), v);
    }
    Request::new(id, method.to_string(), p)
}

fn reply(out: Outcome) -> cox_runtime::rpc::Response {
    match out {
        Outcome::Reply(r) => r,
        _ => panic!("expected reply"),
    }
}

fn command(out: Outcome) -> Command {
    match out {
        Outcome::Perform(_, c) => c,
        _ => panic!("expected a command"),
    }
}

#[test]
fn handshake_ok_on_matching_version() {
    let out = handle(
        req(
            "health/handshake",
            Some(Value::from(1)),
            vec![("protocol_version", ParamValue::Uint(PROTOCOL_VERSION as u64))],
        ),
        RUNTIME_VERSION,
    );
    match out {
        Outcome::Reply(r) => {
            assert!(r.error.is_none());
            match r.result.unwrap() {
                Reply::Handshake { runtime_version, protocol_version } => {
                    assert_eq!(protocol_version, PROTOCOL_VERSION);
                    assert_eq!(runtime_version, RUNTIME_VERSION);
                }
                _ => panic!("expected handshake result"),
            }
        }
        _ => panic!("expected reply"),
    }
}

#[test]
fn handshake_rejects_mismatch() {
    let out = handle(
        req("health/handshake", Some(Value::from(1)), vec![("protocol_version", ParamValue::Uint(999))]),
        RUNTIME_VERSION,
    );
    match out {
        Outcome::Reply(r) => {
            let e = r.error.unwrap();
            assert_eq!(e.code, INVALID_PARAMS);
            assert_eq!(e.message, "protocol version mismatch: client 999, sidecar 1");
        }
        _ => panic!("expected reply"),
    }
}

#[test]
fn handshake_without_version_is_invalid() {
    let r = reply(handle(req("health/handshake", Some(Value::from(5)), vec![]), RUNTIME_VERSION));
    let e = r.error.unwrap();
    assert_eq!(e.code, INVALID_PARAMS);
    assert_eq!(e.message, "handshake missing protocol_version");
    assert_eq!(r.id, Some(Value::from(5)));
}

#[test]
fn handshake_refuses_versions_beyond_u32() {
    let r = reply(handle(
        req("health/handshake", Some(Value::from(1)), vec![("protocol_version", ParamValue::Uint(4294967297))]),
        RUNTIME_VERSION,
    ));
    assert!(r.result.is_none());
    let e = r.error.unwrap();
    assert_eq!(e.code, INVALID_PARAMS);
    assert_eq!(e.message, "protocol version mismatch: client 4294967297, sidecar 1");
    assert_eq!(r.jsonrpc, "2.0");
}

#[test]
fn unknown_method_is_method_not_found() {
    let out = handle(req("unknown_method", Some(Value::from(2)), vec![]), RUNTIME_VERSION);
    match out {
        Outcome::Reply(r) => {
            let e = r.error.unwrap();
            assert_eq!(e.code, METHOD_NOT_FOUND);
            assert_eq!(e.message, "method not found: unknown_method");
        }
        _ => panic!("expected reply"),
    }
}

#[test]
fn shutdown_signals_exit() {
    let out = handle(req("shutdown", Some(Value::from(3)), vec![]), RUNTIME_VERSION);
    assert!(matches!(out, Outcome::Shutdown(_)));
    match out {
        Outcome::Shutdown(r) => {
            assert!(matches!(r.result, Some(Reply::Acknowledged)));
            assert!(r.error.is_none());
        }
        _ => unreachable!(),
    }
}

#[test]
fn notification_is_silent() {
    let out = handle(req("run:progress", None, vec![]), RUNTIME_VERSION);
    assert!(matches!(out, Outcome::Silent));
    let out = handle(req("shutdown", None, vec![]), RUNTIME_VERSION);
    assert!(matches!(out, Outcome::Silent));
}

#[test]
fn open_project_requires_path() {
    let out = handle(req("open_project", Some(Value::from(4)), vec![]), RUNTIME_VERSION);
    match out {
        Outcome::Reply(r) => {
            let err = r.error.unwrap();
            assert_eq!(err.code, INVALID_PARAMS);
            assert_eq!(err.message, "missing required param: path");
        }
        _ => panic!("expected reply"),
    }
}

#[test]
fn open_project_becomes_a_command() {
    let c = command(handle(
        req("open_project", Some(Value::from(4)), vec![("path", ParamValue::Str("/tmp".to_string()))]),
        RUNTIME_VERSION,
    ));
    match c {
        Command::OpenProject { path } => assert_eq!(path, "/tmp"),
        _ => panic!("wrong command"),
    }
}

#[test]
fn ids_are_parsed() {
    let text = "67e55044-10b1-426f-9247-bb680e5fe0c8";
    let expected = uuid::Uuid::parse_str(text).unwrap().as_u128();
    let c = command(handle(
        req(
            "create_thread",
            Some(Value::from(1)),
            vec![("project_id", ParamValue::Str(text.to_string())), ("title", ParamValue::Str("T".to_string()))],
        ),
        RUNTIME_VERSION,
    ));
    match c {
        Command::CreateThread { project_id, title } => {
            assert_eq!(project_id, Uuid(expected));
            assert_eq!(title, Some("T".to_string()));
        }
        _ => panic!("wrong command"),
    }
}

#[test]
fn malformed_id_is_invalid_params() {
    let r = reply(handle(
        req("archive_thread", Some(Value::from(1)), vec![("thread_id", ParamValue::Str("nope".to_string()))]),
        RUNTIME_VERSION,
    ));
    let e = r.error.unwrap();
    assert_eq!(e.code, INVALID_PARAMS);
    assert_eq!(e.message, "invalid thread_id format");
}

#[test]
fn id_of_the_wrong_type_is_missing() {
    let r = reply(handle(
        req("list_runs", Some(Value::from(1)), vec![("thread_id", ParamValue::Uint(7))]),
        RUNTIME_VERSION,
    ));
    assert_eq!(r.error.unwrap().message, "missing required param: thread_id");
}

#[test]
fn list_threads_defaults_to_active_only() {
    let id = uuid::Uuid::new_v4();
    let c = command(handle(
        req("list_threads", Some(Value::from(1)), vec![("project_id", ParamValue::Str(id.to_string()))]),
        RUNTIME_VERSION,
    ));
    match c {
        Command::ListThreads { project_id, include_archived } => {
            assert_eq!(project_id, Uuid(id.as_u128()));
            assert!(!include_archived);
        }
        _ => panic!("wrong command"),
    }
}

#[test]
fn resize_truncates_sizes_to_u16() {
    let id = uuid::Uuid::new_v4();
    let c = command(handle(
        req(
            "resize_terminal",
            Some(Value::from(1)),
            vec![
                ("session_id", ParamValue::Str(id.to_string())),
                ("rows", ParamValue::Uint(65536 + 24)),
                ("cols", ParamValue::Uint(80)),
            ],
        ),
        RUNTIME_VERSION,
    ));
    match c {
        Command::ResizeTerminal { rows, cols, .. } => {
            assert_eq!(rows, 24);
            assert_eq!(cols, 80);
        }
        _ => panic!("wrong command"),
    }
}

#[test]
fn resize_requires_cols() {
    let id = uuid::Uuid::new_v4();
    let r = reply(handle(
        req(
            "resize_terminal",
            Some(Value::from(1)),
            vec![("session_id", ParamValue::Str(id.to_string())), ("rows", ParamValue::Uint(24))],
        ),
        RUNTIME_VERSION,
    ));
    assert_eq!(r.error.unwrap().message, "missing required param: cols");
}

#[test]
fn create_terminal_takes_optional_worktree_and_cwd() {
    let p = uuid::Uuid::new_v4();
    let c = command(handle(
        req(
            "create_terminal",
            Some(Value::from(1)),
            vec![
                ("project_id", ParamValue::Str(p.to_string())),
                ("worktree_id", ParamValue::Str("not-a-uuid".to_string())),
            ],
        ),
        RUNTIME_VERSION,
    ));
    match c {
        Command::CreateTerminal { project_id, worktree_id, cwd } => {
            assert_eq!(project_id, Uuid(p.as_u128()));
            assert_eq!(worktree_id, None);
            assert_eq!(cwd, None);
        }
        _ => panic!("wrong command"),
    }
}

#[test]
fn failures_name_their_stage() {
    let r = failure(Some(Value::from(9)), Stage::RenameThread, "boom");
    let e = r.error.unwrap();
    assert_eq!(e.code, HANDLER_ERROR);
    assert_eq!(e.message, "failed to rename thread: boom");
    let r = project_not_found(Some(Value::from(9)));
    assert_eq!(r.error.unwrap().message, "project not found");
}

fn project_at(path: &str) -> Project {
    let t = Timestamp { secs: 0, nanos: 0 };
    Project {
        id: Uuid(1),
        name: "p".to_string(),
        path: path.to_string(),
        is_git_repo: false,
        current_branch: None,
        created_at: t,
        last_opened_at: t,
    }
}

#[test]
fn terminal_starts_where_asked_or_in_the_project() {
    let asked = terminal_cwd(Some("/work".to_string()), || -> Result<Option<Project>, String> {
        panic!("no lookup when a directory is given")
    });
    assert!(matches!(asked, Ok(d) if d == "/work"));
    let from_project = terminal_cwd(None, || Ok(Some(project_at("/repo"))));
    assert!(matches!(from_project, Ok(d) if d == "/repo"));
    assert!(matches!(terminal_cwd(None, || Ok(None)), Err(Failure::ProjectNotFound)));
    let failed = terminal_cwd(None, || Err("disk I/O error".to_string()));
    assert!(matches!(failed, Err(Failure::Step(Stage::LookupProject, d)) if d == "disk I/O error"));
}

#[test]
fn performed_commands_are_answered_under_their_id() {
    let ok = answer(Some(Value::from(7)), Ok(Reply::Acknowledged));
    assert_eq!(ok.id, Some(Value::from(7)));
    assert_eq!(ok.jsonrpc, "2.0");
    assert!(matches!(ok.result, Some(Reply::Acknowledged)));
    assert!(ok.error.is_none());
    let missing = answer(Some(Value::from(8)), Err(Failure::ProjectNotFound));
    assert!(missing.result.is_none());
    let e = missing.error.unwrap();
    assert_eq!((e.code, e.message.as_str()), (HANDLER_ERROR, "project not found"));
    let failed = answer(Some(Value::from(9)), Err(Failure::Step(Stage::ListRuns, "locked".to_string())));
    assert_eq!(failed.id, Some(Value::from(9)));
    assert_eq!(failed.error.unwrap().message, "failed to list runs: locked");
}

#[test]
fn bad_bodies_and_ends_of_input() {
    let r = parse_error("expected value");
    assert_eq!(r.id, None);
    let e = r.error.unwrap();
    assert_eq!(e.code, PARSE_ERROR);
    assert_eq!(e.message, "parse error: expected value");
    assert_eq!(exit_code_after(&FrameError::Eof), 0);
    assert_eq!(exit_code_after(&FrameError::Io("unexpected end of stream".to_string())), 1);
    assert_eq!(exit_code_after(&FrameError::Header("x".to_string())), 1);
}

#[test]
fn each_frame_gets_its_step() {
    match on_frame(Err("EOF while parsing".to_string()), RUNTIME_VERSION) {
        Outcome::Reply(r) => {
            assert_eq!(r.id, None);
            let e = r.error.unwrap();
            assert_eq!((e.code, e.message.as_str()), (PARSE_ERROR, "parse error: EOF while parsing"));
            assert!(e.data.is_none());
        }
        _ => panic!("expected a parse error"),
    }
    assert!(matches!(on_frame(Ok(req("shutdown", Some(Value::from(1)), vec![])), RUNTIME_VERSION), Outcome::Shutdown(_)));
    assert!(matches!(on_frame(Ok(req("x", None, vec![])), RUNTIME_VERSION), Outcome::Silent));
}
