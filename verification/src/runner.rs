//! Agent runs: the lifecycle of a run and the numbered timeline of events it
//! records, for the real runner (an agent process that prints JSON lines)
//! and the mock runner (a fixed script).

use vstd::prelude::*;
use crate::ids::{hyphenated_text, Timestamp, Uuid};
use crate::models::{Run, RunState};
use crate::rpc::text_eq;

verus! {

/// The kinds of timeline events.
#[derive(Clone, Copy, Debug, PartialEq, Eq, Structural)]
pub enum EventKind {
    RunStarted,
    TextDelta,
    ToolCallStarted,
    ToolCallCompleted,
    Error,
    RunCompleted,
    RunFailed,
}

pub open spec fn kind_name(k: EventKind) -> Seq<char> {
    match k {
        EventKind::RunStarted => "RunStarted"@,
        EventKind::TextDelta => "TextDelta"@,
        EventKind::ToolCallStarted => "ToolCallStarted"@,
        EventKind::ToolCallCompleted => "ToolCallCompleted"@,
        EventKind::Error => "Error"@,
        EventKind::RunCompleted => "RunCompleted"@,
        EventKind::RunFailed => "RunFailed"@,
    }
}

impl EventKind {
    /// The event type as stored and sent.
    pub fn name(&self) -> (r: String)
        ensures
            r@ == kind_name(*self),
    {
        match self {
            EventKind::RunStarted => String::from_str("RunStarted"),
            EventKind::TextDelta => String::from_str("TextDelta"),
            EventKind::ToolCallStarted => String::from_str("ToolCallStarted"),
            EventKind::ToolCallCompleted => String::from_str("ToolCallCompleted"),
            EventKind::Error => String::from_str("Error"),
            EventKind::RunCompleted => String::from_str("RunCompleted"),
            EventKind::RunFailed => String::from_str("RunFailed"),
        }
    }
}

/// The JSON payload of an event.
pub enum EventPayload {
    /// `{ "run_id": id }`, or `{ "run_id": id, "exit_code": code }`.
    RunId { run_id: Uuid, exit_code: Option<i32> },
    /// `{ "text": text }`.
    Text(String),
    /// `{ "text": value }` for an agent's data.
    TextValue(AgentData),
    /// `{ "tool": tool, "args": { "path": path } }`.
    ToolCall { tool: String, path: String },
    /// `{ "tool": tool, "result": result }`.
    ToolResult { tool: String, result: String },
    /// An agent's data as it stands.
    Json(AgentData),
}

/// The `data` member of an agent's JSON line: the value it gave, or the
/// empty object `{}` that stands for it when the line has none.
pub enum AgentData {
    Given(serde_json::Value),
    EmptyObject,
}

/// The data an event carries for a line whose `data` member is `data`.
pub open spec fn data_or_empty(data: Option<serde_json::Value>) -> AgentData {
    match data {
        Some(v) => AgentData::Given(v),
        None => AgentData::EmptyObject,
    }
}

pub enum PayloadView {
    RunId { run_id: Uuid, exit_code: Option<i32> },
    Text(Seq<char>),
    TextValue(AgentData),
    ToolCall { tool: Seq<char>, path: Seq<char> },
    ToolResult { tool: Seq<char>, result: Seq<char> },
    Json(AgentData),
}

impl View for EventPayload {
    type V = PayloadView;

    open spec fn view(&self) -> PayloadView {
        match self {
            EventPayload::RunId { run_id, exit_code } => PayloadView::RunId {
                run_id: *run_id,
                exit_code: *exit_code,
            },
            EventPayload::Text(t) => PayloadView::Text(t@),
            EventPayload::TextValue(v) => PayloadView::TextValue(*v),
            EventPayload::ToolCall { tool, path } => PayloadView::ToolCall {
                tool: tool@,
                path: path@,
            },
            EventPayload::ToolResult { tool, result } => PayloadView::ToolResult {
                tool: tool@,
                result: result@,
            },
            EventPayload::Json(v) => PayloadView::Json(*v),
        }
    }
}

/// A timeline event within a run.
pub struct RunEvent {
    pub id: Uuid,
    pub run_id: Uuid,
    pub sequence: i64,
    pub event_type: String,
    pub payload: EventPayload,
    pub created_at: Timestamp,
}

/// One line that an agent printed on its standard output, as read.
pub enum AgentLine {
    /// The line is not JSON.
    Plain,
    /// The line is JSON; its `type` member if that is a string, and its
    /// `data` member if present.
    Json { event_type: Option<String>, data: Option<serde_json::Value> },
}

pub enum AgentLineView {
    Plain,
    Json { event_type: Option<Seq<char>>, data: Option<serde_json::Value> },
}

impl View for AgentLine {
    type V = AgentLineView;

    open spec fn view(&self) -> AgentLineView {
        match self {
            AgentLine::Plain => AgentLineView::Plain,
            AgentLine::Json { event_type, data } => AgentLineView::Json {
                event_type: match event_type {
                    Some(t) => Some(t@),
                    None => None,
                },
                data: *data,
            },
        }
    }
}

/// The event kind an agent's JSON line maps to, by its `type`.
pub open spec fn agent_kind(t: Seq<char>) -> EventKind {
    if t == "text"@ {
        EventKind::TextDelta
    } else if t == "tool_start"@ {
        EventKind::ToolCallStarted
    } else if t == "tool_end"@ {
        EventKind::ToolCallCompleted
    } else if t == "error"@ {
        EventKind::Error
    } else {
        EventKind::TextDelta
    }
}

/// Whether the line's `type` is one the agent protocol defines.
pub open spec fn known_agent_type(t: Seq<char>) -> bool {
    t == "text"@ || t == "tool_start"@ || t == "tool_end"@ || t == "error"@
}

/// What a line of agent output is, read as JSON: `Plain` when it is not
/// JSON; else its `type` member, if that is a string, and its `data` member,
/// if present.
pub uninterp spec fn agent_line_of(line: Seq<char>) -> AgentLineView;

/// Reads a line of agent output as JSON (`serde_json::from_str` into a
/// `serde_json::Value`) and picks its `type` member, if a string, and its
/// `data` member. What it gives is named [`agent_line_of`].
#[verifier::external_body]
pub(crate) fn parse_agent_line(line: &String) -> (r: AgentLine)
    ensures
        r@ == agent_line_of(line@),
{
    match serde_json::from_str::<serde_json::Value>(line) {
        Ok(v) => AgentLine::Json {
            event_type: v.get("type").and_then(serde_json::Value::as_str).map(String::from),
            data: v.get("data").cloned(),
        },
        Err(_) => AgentLine::Plain,
    }
}

/// What [`classify_line`] gives for a line, its parsed form, and the result.
pub open spec fn classified(
    line: Seq<char>,
    parsed: AgentLineView,
    r: Option<(EventKind, EventPayload)>,
) -> bool {
    match parsed {
        AgentLineView::Plain => match r {
            Some(e) => e.0 == EventKind::TextDelta && e.1@ == PayloadView::Text(line),
            None => false,
        },
        AgentLineView::Json { event_type, data } => match event_type {
            None => r is None,
            Some(t) => match r {
                None => false,
                Some(e) => {
                    &&& e.0 == agent_kind(t)
                    &&& if t == "text"@ {
                        e.1@ == PayloadView::TextValue(data_or_empty(data))
                    } else if known_agent_type(t) {
                        e.1@ == PayloadView::Json(data_or_empty(data))
                    } else {
                        e.1@ == PayloadView::Text(line)
                    }
                },
            },
        },
    }
}

/// Maps a line of agent output to the event it stands for, if any: plain
/// text becomes a text delta; a JSON line with a string `type` becomes the
/// event of that type carrying its `data` (an empty object when absent);
/// an unknown type becomes a text delta of the raw line; a JSON line
/// without a string `type` is dropped.
pub fn classify_line(line: &String, parsed: AgentLine) -> (r: Option<(EventKind, EventPayload)>)
    ensures
        classified(line@, parsed@, r),
{
    match parsed {
        AgentLine::Plain => Some((EventKind::TextDelta, EventPayload::Text(line.clone()))),
        AgentLine::Json { event_type, data } => match event_type {
            None => None,
            Some(t) => {
                let data = match data {
                    Some(d) => AgentData::Given(d),
                    None => AgentData::EmptyObject,
                };
                if text_eq(&t, "text") {
                    Some((EventKind::TextDelta, EventPayload::TextValue(data)))
                } else if text_eq(&t, "tool_start") {
                    Some((EventKind::ToolCallStarted, EventPayload::Json(data)))
                } else if text_eq(&t, "tool_end") {
                    Some((EventKind::ToolCallCompleted, EventPayload::Json(data)))
                } else if text_eq(&t, "error") {
                    Some((EventKind::Error, EventPayload::Json(data)))
                } else {
                    Some((EventKind::TextDelta, EventPayload::Text(line.clone())))
                }
            },
        },
    }
}

/// Errors from run operations. Storage and process failures carry the
/// message of the error that caused them.
pub enum Error {
    ThreadNotFound(Uuid),
    Storage(String),
    Process(String),
}

impl Error {
    /// The error's message, as the user sees it.
    pub fn message(&self) -> (r: String)
        ensures
            self matches Error::ThreadNotFound(id) ==> r@ == "thread not found: "@
                + hyphenated_text(id.0),
            self matches Error::Storage(m) ==> r@ == "storage error: "@ + m@,
            self matches Error::Process(m) ==> r@ == "process error: "@ + m@,
    {
        match self {
            Error::ThreadNotFound(id) => String::from_str("thread not found: ").concat(
                id.hyphenated().as_str(),
            ),
            Error::Storage(m) => String::from_str("storage error: ").concat(m.as_str()),
            Error::Process(m) => String::from_str("process error: ").concat(m.as_str()),
        }
    }
}

/// A new run of a thread on a prompt, created now: queued, outside any
/// worktree, not completed.
pub fn queued_run(thread_id: Uuid, prompt: String, now: Timestamp) -> (r: Run)
    ensures
        r.created_at == now,
        r.thread_id == thread_id,
        r.prompt@ == prompt@,
        r.state == RunState::Queued,
        r.worktree_id is None,
        r.completed_at is None,
{
    Run {
        id: Uuid::new_v4(),
        thread_id,
        prompt,
        state: RunState::Queued,
        worktree_id: None,
        created_at: now,
        completed_at: None,
    }
}

/// The stored run that a runner is to drive, or `ThreadNotFound` (carrying
/// the run's id) when the lookup found none.
pub fn stored_run(run_id: Uuid, stored: Option<Run>) -> (r: Result<Run, Error>)
    ensures
        match stored {
            Some(run) => r == Ok::<Run, Error>(run),
            None => r matches Err(Error::ThreadNotFound(id)) && id == run_id,
        },
{
    match stored {
        Some(run) => Ok(run),
        None => Err(Error::ThreadNotFound(run_id)),
    }
}

/// Records the timeline of one run: it moves the run through its states
/// and numbers the events 0, 1, 2, ... in the order they are recorded.
pub struct RunRecorder {
    pub run: Run,
    /// The number the next event gets.
    pub sequence: i64,
}

impl RunRecorder {
    /// Starts recording: the run is now running, and no event is numbered yet.
    pub fn begin(run: Run) -> (r: RunRecorder)
        ensures
            r.sequence == 0,
            r.run.state == RunState::Running,
            r.run.id == run.id,
            r.run.thread_id == run.thread_id,
            r.run.prompt@ == run.prompt@,
            r.run.worktree_id == run.worktree_id,
            r.run.created_at == run.created_at,
            r.run.completed_at == run.completed_at,
    {
        let mut run = run;
        run.state = RunState::Running;
        RunRecorder { run, sequence: 0 }
    }

    /// Records the next event, made now: it gets the next number and a fresh
    /// id.
    pub fn record(&mut self, kind: EventKind, payload: EventPayload, now: Timestamp) -> (ev:
        RunEvent)
        requires
            old(self).sequence < i64::MAX,
        ensures
            ev.created_at == now,
            ev.sequence == old(self).sequence,
            final(self).sequence == old(self).sequence + 1,
            final(self).run == old(self).run,
            ev.run_id == old(self).run.id,
            ev.event_type@ == kind_name(kind),
            ev.payload@ == payload@,
    {
        let ev = RunEvent {
            id: Uuid::new_v4(),
            run_id: self.run.id,
            sequence: self.sequence,
            event_type: kind.name(),
            payload,
            created_at: now,
        };
        self.sequence = self.sequence + 1;
        ev
    }

    /// Records the event that a line of the agent's output stands for, made
    /// now: the line is read as JSON ([`agent_line_of`]), and the event is the
    /// one [`classify_line`] gives for it, numbered next; a JSON line without
    /// a string `type` gives none.
    pub fn record_line(&mut self, line: &String, now: Timestamp) -> (r: Option<RunEvent>)
        requires
            old(self).sequence < i64::MAX,
        ensures
            r is None <==> classified(line@, agent_line_of(line@), None),
            r is None ==> *final(self) == *old(self),
            r matches Some(ev) ==> {
                &&& ev.sequence == old(self).sequence
                &&& final(self).sequence == old(self).sequence + 1
                &&& final(self).run == old(self).run
                &&& ev.run_id == old(self).run.id
                &&& ev.created_at == now
                &&& exists|e: (EventKind, EventPayload)|
                    #[trigger] classified(line@, agent_line_of(line@), Some(e))
                        && ev.event_type@ == kind_name(e.0) && ev.payload@ == e.1@
            },
    {
        let parsed = parse_agent_line(line);
        let ghost p = parsed@;
        match classify_line(line, parsed) {
            None => None,
            Some(e) => {
                let ghost k = e.0;
                let ghost pv = e.1@;
                assert(classified(line@, p, Some(e)));
                let ev = self.record(e.0, e.1, now);
                assert(ev.event_type@ == kind_name(k) && ev.payload@ == pv);
                Some(ev)
            },
        }
    }

    /// Marks the run `Completed` or `Failed`, completed now, and
    /// gives the closing event: `RunCompleted` (with exit code 0 when the
    /// agent process reported it) or `RunFailed` (with the exit code, -1 when
    /// the process had none).
    pub fn finish(
        &mut self,
        success: bool,
        exit_code: Option<i32>,
        report_exit_code: bool,
        now: Timestamp,
    ) -> (r: (EventKind, EventPayload))
        ensures
            final(self).sequence == old(self).sequence,
            final(self).run.state == (if success {
                RunState::Completed
            } else {
                RunState::Failed
            }),
            final(self).run.completed_at == Some(now),
            final(self).run.id == old(self).run.id,
            final(self).run.thread_id == old(self).run.thread_id,
            final(self).run.prompt@ == old(self).run.prompt@,
            final(self).run.worktree_id == old(self).run.worktree_id,
            final(self).run.created_at == old(self).run.created_at,
            success ==> r.0 == EventKind::RunCompleted && r.1@ == (PayloadView::RunId {
                run_id: old(self).run.id,
                exit_code: if report_exit_code {
                    Some(0i32)
                } else {
                    None
                },
            }),
            !success ==> r.0 == EventKind::RunFailed && r.1@ == (PayloadView::RunId {
                run_id: old(self).run.id,
                exit_code: Some(
                    match exit_code {
                        Some(c) => c,
                        None => -1i32,
                    },
                ),
            }),
    {
        self.run.state = if success {
            RunState::Completed
        } else {
            RunState::Failed
        };
        self.run.completed_at = Some(now);
        let run_id = self.run.id;
        if success {
            let code = if report_exit_code {
                Some(0i32)
            } else {
                None
            };
            (EventKind::RunCompleted, EventPayload::RunId { run_id, exit_code: code })
        } else {
            let code = match exit_code {
                Some(c) => c,
                None => -1i32,
            };
            (EventKind::RunFailed, EventPayload::RunId { run_id, exit_code: Some(code) })
        }
    }
}

/// One step of the mock runner's script: an event, then a pause.
pub struct ScriptStep {
    pub kind: EventKind,
    pub payload: EventPayload,
    pub pause_ms: u64,
}

/// The events that the mock runner emits between `RunStarted` and the
/// closing `RunCompleted`, each followed by the pause it makes.
pub fn mock_script(run_id: Uuid, prompt: &String) -> (s: Vec<ScriptStep>)
    ensures
        s.len() == 7,
        s[0].kind == EventKind::RunStarted && s[0].payload@ == (PayloadView::RunId {
            run_id,
            exit_code: None,
        }) && s[0].pause_ms == 300,
        s[1].kind == EventKind::TextDelta && s[1].payload@ == PayloadView::Text(
            "Analyzing your request: "@,
        ) && s[1].pause_ms == 200,
        s[2].kind == EventKind::TextDelta && s[2].payload@ == PayloadView::Text(prompt@)
            && s[2].pause_ms == 400,
        s[3].kind == EventKind::TextDelta && s[3].payload@ == PayloadView::Text(
            "\n\nI'll help you with that. Let me start by examining the codebase..."@,
        ) && s[3].pause_ms == 500,
        s[4].kind == EventKind::ToolCallStarted && s[4].payload@ == (PayloadView::ToolCall {
            tool: "read_file"@,
            path: "src/main.rs"@,
        }) && s[4].pause_ms == 600,
        s[5].kind == EventKind::ToolCallCompleted && s[5].payload@ == (PayloadView::ToolResult {
            tool: "read_file"@,
            result: "File read successfully (100 lines)"@,
        }) && s[5].pause_ms == 300,
        s[6].kind == EventKind::TextDelta && s[6].payload@ == PayloadView::Text(
            "\n\nBased on my analysis, here's what I found..."@,
        ) && s[6].pause_ms == 400,
{
    let mut s: Vec<ScriptStep> = Vec::new();
    s.push(
        ScriptStep {
            kind: EventKind::RunStarted,
            payload: EventPayload::RunId { run_id, exit_code: None },
            pause_ms: 300,
        },
    );
    s.push(
        ScriptStep {
            kind: EventKind::TextDelta,
            payload: EventPayload::Text(String::from_str("Analyzing your request: ")),
            pause_ms: 200,
        },
    );
    s.push(
        ScriptStep {
            kind: EventKind::TextDelta,
            payload: EventPayload::Text(prompt.clone()),
            pause_ms: 400,
        },
    );
    s.push(
        ScriptStep {
            kind: EventKind::TextDelta,
            payload: EventPayload::Text(
                String::from_str(
                    "\n\nI'll help you with that. Let me start by examining the codebase...",
                ),
            ),
            pause_ms: 500,
        },
    );
    s.push(
        ScriptStep {
            kind: EventKind::ToolCallStarted,
            payload: EventPayload::ToolCall {
                tool: String::from_str("read_file"),
                path: String::from_str("src/main.rs"),
            },
            pause_ms: 600,
        },
    );
    s.push(
        ScriptStep {
            kind: EventKind::ToolCallCompleted,
            payload: EventPayload::ToolResult {
                tool: String::from_str("read_file"),
                result: String::from_str("File read successfully (100 lines)"),
            },
            pause_ms: 300,
        },
    );
    s.push(
        ScriptStep {
            kind: EventKind::TextDelta,
            payload: EventPayload::Text(
                String::from_str("\n\nBased on my analysis, here's what I found..."),
            ),
            pause_ms: 400,
        },
    );
    s
}

/// An agent's data reaches its event unchanged: for a JSON line of a type
/// the protocol defines (`text`, `tool_start`, `tool_end`, `error`), the
/// event it stands for carries the line's own `data` member, and the empty
/// object only when the line has none; a `text` line carries it as the text.
pub proof fn lemma_agent_data_is_kept(line: Seq<char>, e: (EventKind, EventPayload))
    requires
        classified(line, agent_line_of(line), Some(e)),
        agent_line_of(line) matches AgentLineView::Json { event_type: Some(t), .. } && (t
            == "text"@ || t == "tool_start"@ || t == "tool_end"@ || t == "error"@),
    ensures
        match agent_line_of(line) {
            AgentLineView::Json { event_type: Some(t), data } => {
                let d = match data {
                    Some(v) => AgentData::Given(v),
                    None => AgentData::EmptyObject,
                };
                if t == "text"@ {
                    e.1@ == PayloadView::TextValue(d)
                } else {
                    e.1@ == PayloadView::Json(d)
                }
            },
            _ => false,
        },
{
    reveal_strlit("text");
    reveal_strlit("tool_start");
    reveal_strlit("tool_end");
    reveal_strlit("error");
}

} // verus!
