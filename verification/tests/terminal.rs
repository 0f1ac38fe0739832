use cox_runtime::ids::{Timestamp, Uuid};
use cox_runtime::models::TerminalSession;
use cox_runtime::terminal::Error as TerminalError;
use cox_runtime::terminal::{
    closed_session, new_session, read_event, SessionTable, TerminalEvent,
};

fn id() -> Uuid {
    Uuid(uuid::Uuid::new_v4().as_u128())
}

#[test]
fn creates_terminal_session() {
    let mut table: SessionTable<&str> = SessionTable::new();
    let session_id = id();
    table.insert(session_id, "/tmp");
    assert!(table.contains(session_id));
}

#[test]
fn closes_terminal_session() {
    let mut table: SessionTable<&str> = SessionTable::new();
    let session_id = id();
    table.insert(session_id, "/tmp");
    assert!(table.remove(session_id).is_ok());
    assert!(!table.contains(session_id));
}

#[test]
fn unknown_sessions_are_not_found() {
    let mut table: SessionTable<u8> = SessionTable::new();
    let a = id();
    let b = id();
    table.insert(a, 1);
    assert!(matches!(table.get(a), Ok(&1)));
    assert!(matches!(table.get(b), Err(TerminalError::NotFound(x)) if x == b));
    assert!(matches!(table.remove(b), Err(TerminalError::NotFound(x)) if x == b));
    assert!(table.contains(a));
    assert!(matches!(table.remove(a), Ok(1)));
    assert!(matches!(table.remove(a), Err(TerminalError::NotFound(_))));
}

#[test]
fn output_and_exit_events() {
    let s = id();
    let out = read_event(s, b"hello\xff", None);
    match &out {
        TerminalEvent::Output { session_id, data } => {
            assert_eq!(*session_id, s);
            assert_eq!(data, "hello\u{fffd}");
        }
        _ => panic!("expected output"),
    }
    assert_eq!(out.notification_method(), "terminal:output");
    assert!(!out.ends_stream());
    let exit = read_event(s, b"", Some(0));
    assert!(matches!(exit, TerminalEvent::Exit { exit_code: Some(0), .. }));
    assert_eq!(exit.notification_method(), "terminal:exit");
    assert!(exit.ends_stream());
    assert_eq!(exit.session_id(), s);
}

#[test]
fn session_records() {
    let p = id();
    let opened = Timestamp { secs: 10, nanos: 0 };
    let s: TerminalSession = new_session(p, None, "/tmp".into(), opened);
    assert_eq!(s.created_at, opened);
    assert_eq!(s.project_id, p);
    assert_eq!(s.cwd, "/tmp");
    assert!(s.exit_code.is_none());
    assert!(s.closed_at.is_none());
    let sid = s.id;
    let closed = Timestamp { secs: 20, nanos: 0 };
    let c = closed_session(s, closed);
    assert_eq!(c.closed_at, Some(closed));
    assert_eq!(c.created_at, opened);
    assert_eq!(c.id, sid);
}

#[test]
fn terminal_error_messages() {
    let nil = Uuid(0);
    assert_eq!(
        TerminalError::NotFound(nil).message(),
        "terminal session not found: 00000000-0000-0000-0000-000000000000"
    );
    assert_eq!(TerminalError::Pty("open".into()).message(), "pty error: open");
    assert_eq!(TerminalError::Io("pipe".into()).message(), "io error: pipe");
}
