use cox_runtime::ids::{Timestamp, Uuid};
use cox_runtime::models::Thread;
use cox_runtime::threads::Error as ThreadError;
use cox_runtime::threads::{archive_thread, create_thread, found, rename_thread};

fn now() -> Timestamp {
    let t = chrono::Utc::now();
    Timestamp { secs: t.timestamp(), nanos: t.timestamp_subsec_nanos() }
}

fn project() -> Uuid {
    Uuid(uuid::Uuid::new_v4().as_u128())
}

/// The copy of a thread that a store would give back.
fn stored(t: &Thread) -> Thread {
    Thread {
        id: t.id,
        project_id: t.project_id,
        title: t.title.clone(),
        archived: t.archived,
        created_at: t.created_at,
        updated_at: t.updated_at,
    }
}

fn ok(r: Result<Thread, ThreadError>) -> Thread {
    match r {
        Ok(t) => t,
        Err(e) => panic!("unexpected error: {}", e.message()),
    }
}

#[test]
fn creates_thread_with_default_title() {
    let project_id = project();
    let thread = create_thread(project_id, None, now());
    assert_eq!(thread.title, "New thread");
    assert_eq!(thread.project_id, project_id);
    assert!(!thread.archived);
}

#[test]
fn creates_thread_with_custom_title() {
    let thread = create_thread(project(), Some("My task".into()), now());
    assert_eq!(thread.title, "My task");
}

#[test]
fn renames_thread() {
    let thread = create_thread(project(), Some("Old name".into()), now());
    let renamed = ok(rename_thread(thread.id, Some(stored(&thread)), "New name".into(), now()));
    assert_eq!(renamed.title, "New name");
    assert!(renamed.updated_at > thread.updated_at);
    assert_eq!(renamed.id, thread.id);
    assert_eq!(renamed.created_at, thread.created_at);
}

#[test]
fn archives_thread() {
    let thread = create_thread(project(), None, now());
    let archived = ok(archive_thread(thread.id, Some(stored(&thread)), now()));
    assert!(archived.archived);
    assert_eq!(archived.title, "New thread");
    assert_eq!(archived.id, thread.id);
}

#[test]
fn new_threads_are_fresh() {
    let a = create_thread(project(), None, now());
    let b = create_thread(a.project_id, None, now());
    assert_ne!(a.id, b.id);
    assert_eq!(a.created_at, a.updated_at);
}

#[test]
fn missing_thread_is_not_found() {
    let id = Uuid(uuid::Uuid::parse_str("67e55044-10b1-426f-9247-bb680e5fe0c8").unwrap().as_u128());
    match rename_thread(id, None, "x".into(), now()) {
        Err(e) => {
            assert!(matches!(e, ThreadError::NotFound(i) if i == id));
            assert_eq!(e.message(), "thread not found: 67e55044-10b1-426f-9247-bb680e5fe0c8");
        }
        Ok(_) => panic!("expected not found"),
    }
    assert!(matches!(archive_thread(id, None, now()), Err(ThreadError::NotFound(i)) if i == id));
    assert!(matches!(found(id, None), Err(ThreadError::NotFound(_))));
    assert_eq!(ThreadError::Storage("busy".into()).message(), "storage error: busy");
}

#[test]
fn changes_are_stamped_with_the_given_time() {
    let created = Timestamp { secs: 100, nanos: 0 };
    let later = Timestamp { secs: 200, nanos: 7 };
    let thread = create_thread(project(), None, created);
    assert_eq!((thread.created_at, thread.updated_at), (created, created));
    let renamed = ok(rename_thread(thread.id, Some(stored(&thread)), "x".into(), later));
    assert_eq!(renamed.updated_at, later);
    assert_eq!(renamed.created_at, created);
    let archived = ok(archive_thread(thread.id, Some(stored(&thread)), later));
    assert_eq!(archived.updated_at, later);
}
