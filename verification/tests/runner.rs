use cox_runtime::ids::{Timestamp, Uuid};
use cox_runtime::models::{Run, RunState};
use cox_runtime::runner::Error as RunError;
use cox_runtime::runner::{
    classify_line, mock_script, queued_run, stored_run, AgentData, AgentLine, EventKind,
    EventPayload, RunRecorder,
};
use serde_json::Value;

fn now() -> Timestamp {
    let t = chrono::Utc::now();
    Timestamp { secs: t.timestamp(), nanos: t.timestamp_subsec_nanos() }
}

fn id() -> Uuid {
    Uuid(uuid::Uuid::new_v4().as_u128())
}

fn copy(r: &Run) -> Run {
    Run {
        id: r.id,
        thread_id: r.thread_id,
        prompt: r.prompt.clone(),
        state: r.state,
        worktree_id: r.worktree_id,
        created_at: r.created_at,
        completed_at: r.completed_at,
    }
}

#[test]
fn creates_run() {
    let thread_id = id();
    let run = queued_run(thread_id, "Test prompt".into(), now());
    assert_eq!(run.prompt, "Test prompt");
    assert_eq!(run.thread_id, thread_id);
    assert_eq!(run.state, RunState::Queued);
    assert_eq!(run.worktree_id, None);
    assert_eq!(run.completed_at, None);
}

#[test]
fn events_are_numbered_in_order() {
    let run = queued_run(id(), "p".into(), now());
    let run_id = run.id;
    let mut rec = RunRecorder::begin(run);
    assert_eq!(rec.run.state, RunState::Running);
    let a = rec.record(EventKind::RunStarted, EventPayload::RunId { run_id, exit_code: None }, now());
    let b = rec.record(EventKind::TextDelta, EventPayload::Text("hi".into()), now());
    let c = rec.record(EventKind::Error, EventPayload::Json(AgentData::Given(Value::Null)), Timestamp { secs: 9, nanos: 0 });
    assert_eq!(c.created_at, Timestamp { secs: 9, nanos: 0 });
    assert_eq!((a.sequence, b.sequence, c.sequence), (0, 1, 2));
    assert_eq!(a.event_type, "RunStarted");
    assert_eq!(b.event_type, "TextDelta");
    assert_eq!(c.event_type, "Error");
    assert_eq!(c.run_id, run_id);
    assert_eq!(rec.sequence, 3);
}

#[test]
fn finishing_a_run() {
    let run = queued_run(id(), "p".into(), now());
    let run_id = run.id;
    let mut ok = RunRecorder::begin(copy(&run));
    let (k, p) = ok.finish(true, Some(0), true, Timestamp { secs: 3, nanos: 0 });
    assert_eq!(k, EventKind::RunCompleted);
    assert!(matches!(p, EventPayload::RunId { run_id: r, exit_code: Some(0) } if r == run_id));
    assert_eq!(ok.run.state, RunState::Completed);
    assert_eq!(ok.run.completed_at, Some(Timestamp { secs: 3, nanos: 0 }));

    let mut mock = RunRecorder::begin(copy(&run));
    let (_, p) = mock.finish(true, None, false, now());
    assert!(matches!(p, EventPayload::RunId { exit_code: None, .. }));

    let mut bad = RunRecorder::begin(copy(&run));
    let (k, p) = bad.finish(false, Some(3), true, now());
    assert_eq!(k, EventKind::RunFailed);
    assert!(matches!(p, EventPayload::RunId { exit_code: Some(3), .. }));
    assert_eq!(bad.run.state, RunState::Failed);

    let mut killed = RunRecorder::begin(run);
    let (_, p) = killed.finish(false, None, true, now());
    assert!(matches!(p, EventPayload::RunId { exit_code: Some(-1), .. }));
}

#[test]
fn agent_lines_are_classified() {
    let line = "plain words".to_string();
    let (k, p) = classify_line(&line, AgentLine::Plain).unwrap();
    assert_eq!(k, EventKind::TextDelta);
    assert!(matches!(p, EventPayload::Text(t) if t == "plain words"));

    let line = "{\"type\":\"tool_start\",\"data\":1}".to_string();
    let (k, p) = classify_line(
        &line,
        AgentLine::Json { event_type: Some("tool_start".into()), data: Some(Value::from(1)) },
    )
    .unwrap();
    assert_eq!(k, EventKind::ToolCallStarted);
    assert!(matches!(p, EventPayload::Json(AgentData::Given(v)) if v == Value::from(1)));

    let (k, p) = classify_line(&line, AgentLine::Json { event_type: Some("text".into()), data: None }).unwrap();
    assert_eq!(k, EventKind::TextDelta);
    assert!(matches!(p, EventPayload::TextValue(AgentData::EmptyObject)));

    let (k, _) = classify_line(&line, AgentLine::Json { event_type: Some("tool_end".into()), data: None }).unwrap();
    assert_eq!(k, EventKind::ToolCallCompleted);
    let (k, _) = classify_line(&line, AgentLine::Json { event_type: Some("error".into()), data: None }).unwrap();
    assert_eq!(k, EventKind::Error);

    let (k, p) = classify_line(&line, AgentLine::Json { event_type: Some("other".into()), data: None }).unwrap();
    assert_eq!(k, EventKind::TextDelta);
    assert!(matches!(p, EventPayload::Text(t) if t == line));

    assert!(classify_line(&line, AgentLine::Json { event_type: None, data: None }).is_none());
}

#[test]
fn mock_script_is_fixed() {
    let run_id = id();
    let s = mock_script(run_id, &"Fix the bug".to_string());
    assert_eq!(s.len(), 7);
    assert_eq!(s[0].kind, EventKind::RunStarted);
    assert!(matches!(&s[2].payload, EventPayload::Text(t) if t == "Fix the bug"));
    assert!(matches!(&s[4].payload, EventPayload::ToolCall { tool, path } if tool == "read_file" && path == "src/main.rs"));
    let pauses: Vec<u64> = s.iter().map(|x| x.pause_ms).collect();
    assert_eq!(pauses, vec![300, 200, 400, 500, 600, 300, 400]);
}

#[test]
fn missing_run_is_reported() {
    let run_id = id();
    assert!(matches!(stored_run(run_id, None), Err(RunError::ThreadNotFound(i)) if i == run_id));
    let r = Run {
        id: run_id,
        thread_id: id(),
        prompt: "x".into(),
        state: RunState::Queued,
        worktree_id: None,
        created_at: Timestamp { secs: 0, nanos: 0 },
        completed_at: None,
    };
    assert!(matches!(stored_run(run_id, Some(r)), Ok(run) if run.id == run_id));
    assert_eq!(RunError::Process("spawn".into()).message(), "process error: spawn");
    let nil = Uuid(0);
    assert_eq!(
        RunError::ThreadNotFound(nil).message(),
        "thread not found: 00000000-0000-0000-0000-000000000000"
    );
}

#[test]
fn event_kind_names() {
    assert_eq!(EventKind::ToolCallCompleted.name(), "ToolCallCompleted");
    assert_eq!(EventKind::RunFailed.name(), "RunFailed");
}

#[test]
fn each_agent_line_is_one_event_in_order() {
    let run = queued_run(id(), "p".into(), now());
    let run_id = run.id;
    let mut rec = RunRecorder::begin(run);
    let plain = "hello".to_string();
    let first = rec.record_line(&plain, now()).unwrap();
    assert_eq!((first.sequence, first.event_type.as_str()), (0, "TextDelta"));
    assert!(matches!(first.payload, EventPayload::Text(t) if t == "hello"));
    let tool = "{\"type\":\"tool_end\"}".to_string();
    let second = rec.record_line(&tool, now()).unwrap();
    assert_eq!((second.sequence, second.event_type.as_str()), (1, "ToolCallCompleted"));
    assert!(matches!(second.payload, EventPayload::Json(AgentData::EmptyObject)));
    assert_eq!(second.run_id, run_id);
    let text = "{\"type\":\"text\",\"data\":\"Hello from real runner\"}".to_string();
    let third = rec.record_line(&text, now()).unwrap();
    assert_eq!(third.event_type, "TextDelta");
    assert!(matches!(third.payload, EventPayload::TextValue(AgentData::Given(v)) if v == Value::from("Hello from real runner")));
    let other = "{\"type\":\"progress\"}".to_string();
    let fourth = rec.record_line(&other, now()).unwrap();
    assert!(matches!(fourth.payload, EventPayload::Text(t) if t == other));
    let untyped = "{\"data\":1}".to_string();
    assert!(rec.record_line(&untyped, now()).is_none());
    assert!(rec.record_line(&"[1,2]".to_string(), now()).is_none());
    assert_eq!(rec.sequence, 4);
}
