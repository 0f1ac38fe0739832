//! Request routing. Lifecycle methods (`health/handshake`, `shutdown`) are
//! answered here; feature methods are checked for their parameters and turned
//! into a [`Command`] for the host to carry out.

use vstd::prelude::*;
use crate::framing::{decimal, decimal_chars, FrameError};
use crate::ids::{uuid_from_text, Uuid};
use crate::models::Project;
use crate::rpc::{
    error_view, param_bool, param_str, param_u64, success_view, text_eq, Params, Reply,
    ReplyView, Request, RequestView, Response, ResponseView, HANDLER_ERROR, INVALID_PARAMS,
    METHOD_NOT_FOUND, PARSE_ERROR, PROTOCOL_VERSION,
};
use crate::text::string_from_chars;

verus! {

/// A feature request whose parameters were found well-formed.
#[allow(inconsistent_fields)]
pub enum Command {
    OpenProject { path: String },
    ListRecentProjects,
    CreateThread { project_id: Uuid, title: Option<String> },
    ListThreads { project_id: Uuid, include_archived: bool },
    RenameThread { thread_id: Uuid, title: String },
    ArchiveThread { thread_id: Uuid },
    CreateTerminal { project_id: Uuid, worktree_id: Option<Uuid>, cwd: Option<String> },
    SendTerminalInput { session_id: Uuid, data: String },
    ResizeTerminal { session_id: Uuid, rows: u16, cols: u16 },
    CloseTerminal { session_id: Uuid },
    StartRun { thread_id: Uuid, prompt: String },
    ListRuns { thread_id: Uuid },
    ListRunEvents { run_id: Uuid },
}

#[allow(inconsistent_fields)]
pub enum CommandView {
    OpenProject { path: Seq<char> },
    ListRecentProjects,
    CreateThread { project_id: Uuid, title: Option<Seq<char>> },
    ListThreads { project_id: Uuid, include_archived: bool },
    RenameThread { thread_id: Uuid, title: Seq<char> },
    ArchiveThread { thread_id: Uuid },
    CreateTerminal { project_id: Uuid, worktree_id: Option<Uuid>, cwd: Option<Seq<char>> },
    SendTerminalInput { session_id: Uuid, data: Seq<char> },
    ResizeTerminal { session_id: Uuid, rows: u16, cols: u16 },
    CloseTerminal { session_id: Uuid },
    StartRun { thread_id: Uuid, prompt: Seq<char> },
    ListRuns { thread_id: Uuid },
    ListRunEvents { run_id: Uuid },
}

pub open spec fn opt_text(o: Option<String>) -> Option<Seq<char>> {
    match o {
        Some(s) => Some(s@),
        None => None,
    }
}

impl View for Command {
    type V = CommandView;

    open spec fn view(&self) -> CommandView {
        match self {
            Command::OpenProject { path } => CommandView::OpenProject { path: path@ },
            Command::ListRecentProjects => CommandView::ListRecentProjects,
            Command::CreateThread { project_id, title } => CommandView::CreateThread {
                project_id: *project_id,
                title: opt_text(*title),
            },
            Command::ListThreads { project_id, include_archived } => CommandView::ListThreads {
                project_id: *project_id,
                include_archived: *include_archived,
            },
            Command::RenameThread { thread_id, title } => CommandView::RenameThread {
                thread_id: *thread_id,
                title: title@,
            },
            Command::ArchiveThread { thread_id } => CommandView::ArchiveThread {
                thread_id: *thread_id,
            },
            Command::CreateTerminal { project_id, worktree_id, cwd } => CommandView::CreateTerminal {
                project_id: *project_id,
                worktree_id: *worktree_id,
                cwd: opt_text(*cwd),
            },
            Command::SendTerminalInput { session_id, data } => CommandView::SendTerminalInput {
                session_id: *session_id,
                data: data@,
            },
            Command::ResizeTerminal { session_id, rows, cols } => CommandView::ResizeTerminal {
                session_id: *session_id,
                rows: *rows,
                cols: *cols,
            },
            Command::CloseTerminal { session_id } => CommandView::CloseTerminal {
                session_id: *session_id,
            },
            Command::StartRun { thread_id, prompt } => CommandView::StartRun {
                thread_id: *thread_id,
                prompt: prompt@,
            },
            Command::ListRuns { thread_id } => CommandView::ListRuns { thread_id: *thread_id },
            Command::ListRunEvents { run_id } => CommandView::ListRunEvents { run_id: *run_id },
        }
    }
}

pub open spec fn missing_param(key: Seq<char>) -> Seq<char> {
    "missing required param: "@ + key
}

pub open spec fn invalid_format(key: Seq<char>) -> Seq<char> {
    "invalid "@ + key + " format"@
}

/// A required string parameter.
pub open spec fn need_str(p: Seq<(Seq<char>, crate::rpc::ParamValueView)>, key: Seq<char>) -> Result<
    Seq<char>,
    Seq<char>,
> {
    match param_str(p, key) {
        Some(s) => Ok(s),
        None => Err(missing_param(key)),
    }
}

/// A required identifier parameter, given as text.
pub open spec fn need_uuid(p: Seq<(Seq<char>, crate::rpc::ParamValueView)>, key: Seq<char>) -> Result<
    Uuid,
    Seq<char>,
> {
    match param_str(p, key) {
        None => Err(missing_param(key)),
        Some(s) => match uuid_from_text(s) {
            Some(v) => Ok(Uuid(v)),
            None => Err(invalid_format(key)),
        },
    }
}

/// A required non-negative integer parameter.
pub open spec fn need_u64(p: Seq<(Seq<char>, crate::rpc::ParamValueView)>, key: Seq<char>) -> Result<
    u64,
    Seq<char>,
> {
    match param_u64(p, key) {
        Some(n) => Ok(n),
        None => Err(missing_param(key)),
    }
}

/// An optional identifier parameter: absent, or not an identifier, is `None`.
pub open spec fn opt_uuid(p: Seq<(Seq<char>, crate::rpc::ParamValueView)>, key: Seq<char>) -> Option<
    Uuid,
> {
    match param_str(p, key) {
        Some(s) => match uuid_from_text(s) {
            Some(v) => Some(Uuid(v)),
            None => None,
        },
        None => None,
    }
}

/// The command that a feature method asks for, or the message of its first
/// missing or malformed parameter; `None` for a method that is no feature.
pub open spec fn command_for(method: Seq<char>, p: Seq<(Seq<char>, crate::rpc::ParamValueView)>) -> Option<
    Result<CommandView, Seq<char>>,
> {
    if method == "open_project"@ {
        Some(
            match need_str(p, "path"@) {
                Ok(path) => Ok(CommandView::OpenProject { path }),
                Err(m) => Err(m),
            },
        )
    } else if method == "list_recent_projects"@ {
        Some(Ok(CommandView::ListRecentProjects))
    } else if method == "create_thread"@ {
        Some(
            match need_uuid(p, "project_id"@) {
                Ok(project_id) => Ok(
                    CommandView::CreateThread { project_id, title: param_str(p, "title"@) },
                ),
                Err(m) => Err(m),
            },
        )
    } else if method == "list_threads"@ {
        Some(
            match need_uuid(p, "project_id"@) {
                Ok(project_id) => Ok(
                    CommandView::ListThreads {
                        project_id,
                        include_archived: match param_bool(p, "include_archived"@) {
                            Some(b) => b,
                            None => false,
                        },
                    },
                ),
                Err(m) => Err(m),
            },
        )
    } else if method == "rename_thread"@ {
        Some(
            match need_uuid(p, "thread_id"@) {
                Ok(thread_id) => match need_str(p, "title"@) {
                    Ok(title) => Ok(CommandView::RenameThread { thread_id, title }),
                    Err(m) => Err(m),
                },
                Err(m) => Err(m),
            },
        )
    } else if method == "archive_thread"@ {
        Some(
            match need_uuid(p, "thread_id"@) {
                Ok(thread_id) => Ok(CommandView::ArchiveThread { thread_id }),
                Err(m) => Err(m),
            },
        )
    } else if method == "create_terminal"@ {
        Some(
            match need_uuid(p, "project_id"@) {
                Ok(project_id) => Ok(
                    CommandView::CreateTerminal {
                        project_id,
                        worktree_id: opt_uuid(p, "worktree_id"@),
                        cwd: param_str(p, "cwd"@),
                    },
                ),
                Err(m) => Err(m),
            },
        )
    } else if method == "send_terminal_input"@ {
        Some(
            match need_uuid(p, "session_id"@) {
                Ok(session_id) => match need_str(p, "data"@) {
                    Ok(data) => Ok(CommandView::SendTerminalInput { session_id, data }),
                    Err(m) => Err(m),
                },
                Err(m) => Err(m),
            },
        )
    } else if method == "resize_terminal"@ {
        Some(
            match need_uuid(p, "session_id"@) {
                Ok(session_id) => match need_u64(p, "rows"@) {
                    Ok(rows) => match need_u64(p, "cols"@) {
                        Ok(cols) => Ok(
                            CommandView::ResizeTerminal {
                                session_id,
                                rows: rows as u16,
                                cols: cols as u16,
                            },
                        ),
                        Err(m) => Err(m),
                    },
                    Err(m) => Err(m),
                },
                Err(m) => Err(m),
            },
        )
    } else if method == "close_terminal"@ {
        Some(
            match need_uuid(p, "session_id"@) {
                Ok(session_id) => Ok(CommandView::CloseTerminal { session_id }),
                Err(m) => Err(m),
            },
        )
    } else if method == "start_run"@ {
        Some(
            match need_uuid(p, "thread_id"@) {
                Ok(thread_id) => match need_str(p, "prompt"@) {
                    Ok(prompt) => Ok(CommandView::StartRun { thread_id, prompt }),
                    Err(m) => Err(m),
                },
                Err(m) => Err(m),
            },
        )
    } else if method == "list_runs"@ {
        Some(
            match need_uuid(p, "thread_id"@) {
                Ok(thread_id) => Ok(CommandView::ListRuns { thread_id }),
                Err(m) => Err(m),
            },
        )
    } else if method == "list_run_events"@ {
        Some(
            match need_uuid(p, "run_id"@) {
                Ok(run_id) => Ok(CommandView::ListRunEvents { run_id }),
                Err(m) => Err(m),
            },
        )
    } else {
        None
    }
}

/// What the read loop should do after handling one message.
pub enum Outcome {
    /// Send this response back to the caller.
    Reply(Response),
    /// Nothing to send (e.g. a notification we don't act on).
    Silent,
    /// Send this final response, then exit the process cleanly.
    Shutdown(Response),
    /// Carry out this command and answer the request with this id.
    Perform(Option<serde_json::Value>, Command),
}

pub enum OutcomeView {
    Reply(ResponseView),
    Silent,
    Shutdown(ResponseView),
    Perform(Option<serde_json::Value>, CommandView),
}

impl View for Outcome {
    type V = OutcomeView;

    open spec fn view(&self) -> OutcomeView {
        match self {
            Outcome::Reply(r) => OutcomeView::Reply(r@),
            Outcome::Silent => OutcomeView::Silent,
            Outcome::Shutdown(r) => OutcomeView::Shutdown(r@),
            Outcome::Perform(id, c) => OutcomeView::Perform(*id, c@),
        }
    }
}

/// The answer to `health/handshake({ protocol_version })`.
pub open spec fn handshake_view(
    id: Option<serde_json::Value>,
    p: Seq<(Seq<char>, crate::rpc::ParamValueView)>,
    runtime_version: Seq<char>,
) -> ResponseView {
    match param_u64(p, "protocol_version"@) {
        Some(v) => if v == PROTOCOL_VERSION as u64 {
            success_view(
                id,
                ReplyView::Handshake { runtime_version, protocol_version: PROTOCOL_VERSION },
            )
        } else {
            error_view(
                id,
                INVALID_PARAMS,
                "protocol version mismatch: client "@ + decimal(v as nat) + ", sidecar "@
                    + decimal(PROTOCOL_VERSION as nat),
            )
        },
        None => error_view(id, INVALID_PARAMS, "handshake missing protocol_version"@),
    }
}

/// How a request is handled.
pub open spec fn outcome_of(req: RequestView, runtime_version: Seq<char>) -> OutcomeView {
    if req.id is None {
        OutcomeView::Silent
    } else if req.method == "health/handshake"@ {
        OutcomeView::Reply(handshake_view(req.id, req.params, runtime_version))
    } else if req.method == "shutdown"@ {
        OutcomeView::Shutdown(success_view(req.id, ReplyView::Acknowledged))
    } else {
        match command_for(req.method, req.params) {
            Some(Ok(c)) => OutcomeView::Perform(req.id, c),
            Some(Err(m)) => OutcomeView::Reply(error_view(req.id, INVALID_PARAMS, m)),
            None => OutcomeView::Reply(
                error_view(req.id, METHOD_NOT_FOUND, "method not found: "@ + req.method),
            ),
        }
    }
}

fn missing(key: &str) -> (r: String)
    ensures
        r@ == missing_param(key@),
{
    String::from_str("missing required param: ").concat(key)
}

fn get_required_str(p: &Params, key: &str) -> (r: Result<String, String>)
    ensures
        match need_str(p@, key@) {
            Ok(s) => r matches Ok(t) && t@ == s,
            Err(m) => r matches Err(t) && t@ == m,
        },
{
    match p.get_str(key) {
        Some(s) => Ok(s),
        None => Err(missing(key)),
    }
}

fn get_required_uuid(p: &Params, key: &str) -> (r: Result<Uuid, String>)
    ensures
        match need_uuid(p@, key@) {
            Ok(u) => r == Ok::<Uuid, String>(u),
            Err(m) => r matches Err(t) && t@ == m,
        },
{
    match p.get_str(key) {
        None => Err(missing(key)),
        Some(s) => match Uuid::parse_str(s.as_str()) {
            Some(u) => Ok(u),
            None => Err(String::from_str("invalid ").concat(key).concat(" format")),
        },
    }
}

fn get_required_u64(p: &Params, key: &str) -> (r: Result<u64, String>)
    ensures
        match need_u64(p@, key@) {
            Ok(n) => r == Ok::<u64, String>(n),
            Err(m) => r matches Err(t) && t@ == m,
        },
{
    match p.get_u64(key) {
        Some(n) => Ok(n),
        None => Err(missing(key)),
    }
}

fn get_optional_uuid(p: &Params, key: &str) -> (r: Option<Uuid>)
    ensures
        r == opt_uuid(p@, key@),
{
    match p.get_str(key) {
        Some(s) => Uuid::parse_str(s.as_str()),
        None => None,
    }
}

/// Checks the parameters of a feature method.
pub fn parse_command(method: &String, p: &Params) -> (r: Option<Result<Command, String>>)
    ensures
        match command_for(method@, p@) {
            None => r is None,
            Some(Ok(c)) => r matches Some(Ok(d)) && d@ == c,
            Some(Err(m)) => r matches Some(Err(t)) && t@ == m,
        },
{
    if text_eq(method, "open_project") {
        Some(
            match get_required_str(p, "path") {
                Ok(path) => Ok(Command::OpenProject { path }),
                Err(m) => Err(m),
            },
        )
    } else if text_eq(method, "list_recent_projects") {
        Some(Ok(Command::ListRecentProjects))
    } else if text_eq(method, "create_thread") {
        Some(
            match get_required_uuid(p, "project_id") {
                Ok(project_id) => Ok(Command::CreateThread { project_id, title: p.get_str("title") }),
                Err(m) => Err(m),
            },
        )
    } else if text_eq(method, "list_threads") {
        Some(
            match get_required_uuid(p, "project_id") {
                Ok(project_id) => {
                    let include_archived = match p.get_bool("include_archived") {
                        Some(b) => b,
                        None => false,
                    };
                    Ok(Command::ListThreads { project_id, include_archived })
                },
                Err(m) => Err(m),
            },
        )
    } else if text_eq(method, "rename_thread") {
        Some(
            match get_required_uuid(p, "thread_id") {
                Ok(thread_id) => match get_required_str(p, "title") {
                    Ok(title) => Ok(Command::RenameThread { thread_id, title }),
                    Err(m) => Err(m),
                },
                Err(m) => Err(m),
            },
        )
    } else if text_eq(method, "archive_thread") {
        Some(
            match get_required_uuid(p, "thread_id") {
                Ok(thread_id) => Ok(Command::ArchiveThread { thread_id }),
                Err(m) => Err(m),
            },
        )
    } else if text_eq(method, "create_terminal") {
        Some(
            match get_required_uuid(p, "project_id") {
                Ok(project_id) => Ok(
                    Command::CreateTerminal {
                        project_id,
                        worktree_id: get_optional_uuid(p, "worktree_id"),
                        cwd: p.get_str("cwd"),
                    },
                ),
                Err(m) => Err(m),
            },
        )
    } else if text_eq(method, "send_terminal_input") {
        Some(
            match get_required_uuid(p, "session_id") {
                Ok(session_id) => match get_required_str(p, "data") {
                    Ok(data) => Ok(Command::SendTerminalInput { session_id, data }),
                    Err(m) => Err(m),
                },
                Err(m) => Err(m),
            },
        )
    } else if text_eq(method, "resize_terminal") {
        Some(
            match get_required_uuid(p, "session_id") {
                Ok(session_id) => match get_required_u64(p, "rows") {
                    Ok(rows) => match get_required_u64(p, "cols") {
                        Ok(cols) => Ok(
                            Command::ResizeTerminal {
                                session_id,
                                rows: rows as u16,
                                cols: cols as u16,
                            },
                        ),
                        Err(m) => Err(m),
                    },
                    Err(m) => Err(m),
                },
                Err(m) => Err(m),
            },
        )
    } else if text_eq(method, "close_terminal") {
        Some(
            match get_required_uuid(p, "session_id") {
                Ok(session_id) => Ok(Command::CloseTerminal { session_id }),
                Err(m) => Err(m),
            },
        )
    } else if text_eq(method, "start_run") {
        Some(
            match get_required_uuid(p, "thread_id") {
                Ok(thread_id) => match get_required_str(p, "prompt") {
                    Ok(prompt) => Ok(Command::StartRun { thread_id, prompt }),
                    Err(m) => Err(m),
                },
                Err(m) => Err(m),
            },
        )
    } else if text_eq(method, "list_runs") {
        Some(
            match get_required_uuid(p, "thread_id") {
                Ok(thread_id) => Ok(Command::ListRuns { thread_id }),
                Err(m) => Err(m),
            },
        )
    } else if text_eq(method, "list_run_events") {
        Some(
            match get_required_uuid(p, "run_id") {
                Ok(run_id) => Ok(Command::ListRunEvents { run_id }),
                Err(m) => Err(m),
            },
        )
    } else {
        None
    }
}

/// Answers `health/handshake({ protocol_version })` with
/// `{ runtime_version, protocol_version }`, refusing a protocol mismatch so
/// that the main process can fail fast.
pub fn handshake(id: Option<serde_json::Value>, p: &Params, runtime_version: &str) -> (r: Response)
    ensures
        r@ == handshake_view(id, p@, runtime_version@),
{
    match p.get_u64("protocol_version") {
        Some(v) => {
            if v == PROTOCOL_VERSION as u64 {
                Response::success(
                    id,
                    Reply::Handshake {
                        runtime_version: String::from_str(runtime_version),
                        protocol_version: PROTOCOL_VERSION,
                    },
                )
            } else {
                let client = string_from_chars(&decimal_chars(v));
                let sidecar = string_from_chars(&decimal_chars(PROTOCOL_VERSION as u64));
                let message = String::from_str("protocol version mismatch: client ").concat(
                    client.as_str(),
                ).concat(", sidecar ").concat(sidecar.as_str());
                Response::error(id, INVALID_PARAMS, message)
            }
        },
        None => Response::error(
            id,
            INVALID_PARAMS,
            String::from_str("handshake missing protocol_version"),
        ),
    }
}

/// Routes a single decoded request: notifications get no reply, lifecycle
/// methods are answered, feature methods become commands once their
/// parameters check out.
pub fn handle(req: Request, runtime_version: &str) -> (out: Outcome)
    ensures
        out@ == outcome_of(req@, runtime_version@),
{
    if req.is_notification() {
        return Outcome::Silent;
    }
    let id = req.id;
    if text_eq(&req.method, "health/handshake") {
        Outcome::Reply(handshake(id, &req.params, runtime_version))
    } else if text_eq(&req.method, "shutdown") {
        Outcome::Shutdown(Response::success(id, Reply::Acknowledged))
    } else {
        match parse_command(&req.method, &req.params) {
            Some(Ok(c)) => Outcome::Perform(id, c),
            Some(Err(m)) => Outcome::Reply(Response::error(id, INVALID_PARAMS, m)),
            None => Outcome::Reply(
                Response::error(
                    id,
                    METHOD_NOT_FOUND,
                    String::from_str("method not found: ").concat(req.method.as_str()),
                ),
            ),
        }
    }
}

/// The step of carrying out a command that failed.
#[derive(Clone, Copy, Debug, PartialEq, Eq, Structural)]
pub enum Stage {
    OpenProject,
    ListProjects,
    CreateThread,
    ListThreads,
    RenameThread,
    ArchiveThread,
    LookupProject,
    PersistSession,
    CreateTerminal,
    SendInput,
    ResizeTerminal,
    CloseTerminal,
    StartRun,
    ListRuns,
    ListEvents,
}

/// What the error message of a failed step starts with.
pub open spec fn stage_prefix(s: Stage) -> Seq<char> {
    match s {
        Stage::OpenProject => "failed to open project: "@,
        Stage::ListProjects => "failed to list projects: "@,
        Stage::CreateThread => "failed to create thread: "@,
        Stage::ListThreads => "failed to list threads: "@,
        Stage::RenameThread => "failed to rename thread: "@,
        Stage::ArchiveThread => "failed to archive thread: "@,
        Stage::LookupProject => "failed to get project: "@,
        Stage::PersistSession => "failed to persist session: "@,
        Stage::CreateTerminal => "failed to create terminal: "@,
        Stage::SendInput => "failed to send input: "@,
        Stage::ResizeTerminal => "failed to resize terminal: "@,
        Stage::CloseTerminal => "failed to close terminal: "@,
        Stage::StartRun => "failed to start run: "@,
        Stage::ListRuns => "failed to list runs: "@,
        Stage::ListEvents => "failed to list events: "@,
    }
}

fn stage_text(s: Stage) -> (r: String)
    ensures
        r@ == stage_prefix(s),
{
    match s {
        Stage::OpenProject => String::from_str("failed to open project: "),
        Stage::ListProjects => String::from_str("failed to list projects: "),
        Stage::CreateThread => String::from_str("failed to create thread: "),
        Stage::ListThreads => String::from_str("failed to list threads: "),
        Stage::RenameThread => String::from_str("failed to rename thread: "),
        Stage::ArchiveThread => String::from_str("failed to archive thread: "),
        Stage::LookupProject => String::from_str("failed to get project: "),
        Stage::PersistSession => String::from_str("failed to persist session: "),
        Stage::CreateTerminal => String::from_str("failed to create terminal: "),
        Stage::SendInput => String::from_str("failed to send input: "),
        Stage::ResizeTerminal => String::from_str("failed to resize terminal: "),
        Stage::CloseTerminal => String::from_str("failed to close terminal: "),
        Stage::StartRun => String::from_str("failed to start run: "),
        Stage::ListRuns => String::from_str("failed to list runs: "),
        Stage::ListEvents => String::from_str("failed to list events: "),
    }
}

/// The answer to a command whose step failed with the given detail.
pub fn failure(id: Option<serde_json::Value>, stage: Stage, detail: &str) -> (r: Response)
    ensures
        r@ == error_view(id, HANDLER_ERROR, stage_prefix(stage) + detail@),
{
    Response::error(id, HANDLER_ERROR, stage_text(stage).concat(detail))
}

/// The answer to `create_terminal` for a project that is not stored.
pub fn project_not_found(id: Option<serde_json::Value>) -> (r: Response)
    ensures
        r@ == error_view(id, HANDLER_ERROR, "project not found"@),
{
    Response::error(id, HANDLER_ERROR, String::from_str("project not found"))
}

/// Why carrying out a command failed.
pub enum Failure {
    /// A step failed; the detail says how.
    Step(Stage, String),
    /// The project a terminal was to start in is not stored.
    ProjectNotFound,
}

pub enum FailureView {
    Step(Stage, Seq<char>),
    ProjectNotFound,
}

impl View for Failure {
    type V = FailureView;

    open spec fn view(&self) -> FailureView {
        match self {
            Failure::Step(s, d) => FailureView::Step(*s, d@),
            Failure::ProjectNotFound => FailureView::ProjectNotFound,
        }
    }
}

/// The error message of a failure.
pub open spec fn failure_message(f: FailureView) -> Seq<char> {
    match f {
        FailureView::Step(s, d) => stage_prefix(s) + d,
        FailureView::ProjectNotFound => "project not found"@,
    }
}

/// What carrying out a command came to, by its views.
pub open spec fn performed_view(o: Result<Reply, Failure>) -> Result<ReplyView, FailureView> {
    match o {
        Ok(v) => Ok(v@),
        Err(f) => Err(f@),
    }
}

/// The answer to a command carried out for the request with this id: its
/// result, or `HANDLER_ERROR` with the failure's message.
pub open spec fn answer_view(
    id: Option<serde_json::Value>,
    performed: Result<ReplyView, FailureView>,
) -> ResponseView {
    match performed {
        Ok(v) => success_view(id, v),
        Err(f) => error_view(id, HANDLER_ERROR, failure_message(f)),
    }
}

/// Answers the request with this id once its command was carried out.
pub fn answer(id: Option<serde_json::Value>, performed: Result<Reply, Failure>) -> (r: Response)
    ensures
        r@ == answer_view(id, performed_view(performed)),
{
    match performed {
        Ok(v) => Response::success(id, v),
        Err(Failure::Step(stage, detail)) => failure(id, stage, detail.as_str()),
        Err(Failure::ProjectNotFound) => project_not_found(id),
    }
}

/// Where a new terminal starts: the directory the request names; else the
/// path of its project, which `lookup` reads from the store (and only then
/// is it called). A project that is not stored, or a failed lookup, is a
/// failure.
pub fn terminal_cwd<F: FnOnce() -> Result<Option<Project>, String>>(
    cwd: Option<String>,
    lookup: F,
) -> (r: Result<String, Failure>)
    requires
        cwd is None ==> call_requires(lookup, ()),
    ensures
        cwd matches Some(c) ==> (r matches Ok(d) && d@ == c@),
        cwd is None ==> exists|l: Result<Option<Project>, String>|
            #[trigger] call_ensures(lookup, (), l) && match l {
                Ok(Some(p)) => r matches Ok(d) && d@ == p.path@,
                Ok(None) => r matches Err(Failure::ProjectNotFound),
                Err(m) => r matches Err(Failure::Step(s, d)) && s == Stage::LookupProject && d@
                    == m@,
            },
{
    match cwd {
        Some(c) => Ok(c),
        None => {
            let l = lookup();
            assert(call_ensures(lookup, (), l));
            match l {
                Ok(Some(p)) => Ok(p.path),
                Ok(None) => Err(Failure::ProjectNotFound),
                Err(m) => Err(Failure::Step(Stage::LookupProject, m)),
            }
        },
    }
}

/// The answer to a message whose body is not a JSON-RPC request. No id
/// could be read from it, so the answer goes to `null`.
pub fn parse_error(detail: &str) -> (r: Response)
    ensures
        r@ == error_view(None, PARSE_ERROR, "parse error: "@ + detail@),
{
    Response::error(None, PARSE_ERROR, String::from_str("parse error: ").concat(detail))
}

/// What a frame's body was read as: a request, or the reason it is none.
pub open spec fn frame_view(body: Result<Request, String>) -> Result<RequestView, Seq<char>> {
    match body {
        Ok(req) => Ok(req@),
        Err(d) => Err(d@),
    }
}

/// How one frame is handled: a body that is no request is answered with a
/// parse error under a `null` id; a request as [`outcome_of`] says.
pub open spec fn frame_outcome(
    body: Result<RequestView, Seq<char>>,
    runtime_version: Seq<char>,
) -> OutcomeView {
    match body {
        Err(d) => OutcomeView::Reply(error_view(None, PARSE_ERROR, "parse error: "@ + d)),
        Ok(req) => outcome_of(req, runtime_version),
    }
}

/// One step of the read and answer loop, for one frame's body as read: what
/// to send (a reply, nothing, or a last reply before stopping), or the
/// command to carry out and answer with [`answer`].
pub fn on_frame(body: Result<Request, String>, runtime_version: &str) -> (out: Outcome)
    ensures
        out@ == frame_outcome(frame_view(body), runtime_version@),
{
    match body {
        Err(d) => Outcome::Reply(parse_error(d.as_str())),
        Ok(req) => handle(req, runtime_version),
    }
}

/// The process exit code once reading messages stops: a clean end of input
/// between messages is a normal exit, any other framing error is not.
pub fn exit_code_after(e: &FrameError) -> (code: i32)
    ensures
        code == (if e is Eof {
            0i32
        } else {
            1i32
        }),
{
    match e {
        FrameError::Eof => 0,
        _ => 1,
    }
}

/// Notifications never get a reply.
pub proof fn lemma_notifications_are_silent(req: RequestView, runtime_version: Seq<char>)
    requires
        req.id is None,
    ensures
        outcome_of(req, runtime_version) == OutcomeView::Silent,
{
}

/// A request whose method is neither a lifecycle method nor a feature is
/// answered `METHOD_NOT_FOUND`, naming the method, under its own id.
pub proof fn lemma_unknown_method(req: RequestView, runtime_version: Seq<char>)
    requires
        req.id is Some,
        req.method != "health/handshake"@,
        req.method != "shutdown"@,
        command_for(req.method, req.params) is None,
    ensures
        outcome_of(req, runtime_version) == OutcomeView::Reply(
            error_view(req.id, METHOD_NOT_FOUND, "method not found: "@ + req.method),
        ),
{
}

/// The handshake succeeds exactly when the client sends the protocol version
/// that this side speaks, and then reports both versions; any other version,
/// however large, is refused.
pub proof fn lemma_handshake_agrees(
    id: Option<serde_json::Value>,
    p: Seq<(Seq<char>, crate::rpc::ParamValueView)>,
    runtime_version: Seq<char>,
)
    ensures
        handshake_view(id, p, runtime_version).error is None <==> (param_u64(
            p,
            "protocol_version"@,
        ) matches Some(v) && v == PROTOCOL_VERSION as u64),
        handshake_view(id, p, runtime_version).error is None ==> handshake_view(
            id,
            p,
            runtime_version,
        ).result == Some(
            ReplyView::Handshake { runtime_version, protocol_version: PROTOCOL_VERSION },
        ),
        handshake_view(id, p, runtime_version).id == id,
{
}

/// Every request with an id gets exactly one of: a reply, a shutdown reply, or
/// a command to carry out; a reply is a JSON-RPC 2.0 response under the
/// request's id, with either a result or an error, never both.
pub proof fn lemma_replies_are_well_formed(req: RequestView, runtime_version: Seq<char>)
    requires
        req.id is Some,
    ensures
        match outcome_of(req, runtime_version) {
            OutcomeView::Reply(r) => r.id == req.id && r.jsonrpc == "2.0"@ && (r.result is Some
                != r.error is Some),
            OutcomeView::Shutdown(r) => r.id == req.id && r.jsonrpc == "2.0"@ && r.result == Some(
                ReplyView::Acknowledged,
            ) && r.error is None,
            OutcomeView::Perform(id, _) => id == req.id,
            OutcomeView::Silent => false,
        },
{
}

/// Every request with an id is answered under that id with a JSON-RPC 2.0
/// response holding exactly one of a result or an error: at once, or, for a
/// command, once it was carried out, whatever it came to.
pub proof fn lemma_every_request_is_answered(
    req: RequestView,
    runtime_version: Seq<char>,
    performed: Result<ReplyView, FailureView>,
)
    requires
        req.id is Some,
    ensures
        match outcome_of(req, runtime_version) {
            OutcomeView::Reply(r) => r.id == req.id && r.jsonrpc == "2.0"@ && (r.result is Some
                != r.error is Some),
            OutcomeView::Shutdown(r) => r.id == req.id && r.jsonrpc == "2.0"@ && (r.result is Some
                != r.error is Some),
            OutcomeView::Perform(id, _) => {
                let r = answer_view(id, performed);
                r.id == req.id && r.jsonrpc == "2.0"@ && (r.result is Some != r.error is Some)
            },
            OutcomeView::Silent => false,
        },
{
}

/// A `list_threads` request with a valid project id lists that project's
/// threads, archived ones too exactly when its `include_archived` member is
/// `true` (absent or not a boolean: only the active ones).
pub proof fn lemma_list_threads_honours_include_archived(req: RequestView, runtime_version: Seq<char>)
    requires
        req.id is Some,
        req.method == "list_threads"@,
        need_uuid(req.params, "project_id"@) is Ok,
    ensures
        outcome_of(req, runtime_version) == OutcomeView::Perform(
            req.id,
            CommandView::ListThreads {
                project_id: need_uuid(req.params, "project_id"@)->Ok_0,
                include_archived: param_bool(req.params, "include_archived"@) == Some(true),
            },
        ),
{
    reveal_strlit("list_threads");
    reveal_strlit("health/handshake");
    reveal_strlit("shutdown");
    reveal_strlit("open_project");
    reveal_strlit("list_recent_projects");
    reveal_strlit("create_thread");
    let b = param_bool(req.params, "include_archived"@);
    let flag = match b {
        Some(x) => x,
        None => false,
    };
    assert(flag == (b == Some(true)));
    assert(req.method[0] == 'l' && "open_project"@[0] == 'o');
    assert(command_for(req.method, req.params) == Some(
        Ok::<CommandView, Seq<char>>(
            CommandView::ListThreads {
                project_id: need_uuid(req.params, "project_id"@)->Ok_0,
                include_archived: flag,
            },
        ),
    ));
}

/// A `create_terminal` request with a valid project id opens a terminal of
/// that project in the directory its `cwd` member names (none named: the
/// project's own directory), in the worktree its `worktree_id` names, if any.
pub proof fn lemma_create_terminal_honours_cwd(req: RequestView, runtime_version: Seq<char>)
    requires
        req.id is Some,
        req.method == "create_terminal"@,
        need_uuid(req.params, "project_id"@) is Ok,
    ensures
        outcome_of(req, runtime_version) == OutcomeView::Perform(
            req.id,
            CommandView::CreateTerminal {
                project_id: need_uuid(req.params, "project_id"@)->Ok_0,
                worktree_id: opt_uuid(req.params, "worktree_id"@),
                cwd: param_str(req.params, "cwd"@),
            },
        ),
{
    reveal_strlit("create_terminal");
    reveal_strlit("health/handshake");
    reveal_strlit("shutdown");
    reveal_strlit("open_project");
    reveal_strlit("list_recent_projects");
    reveal_strlit("create_thread");
    reveal_strlit("list_threads");
    reveal_strlit("rename_thread");
    reveal_strlit("archive_thread");
}

proof fn lemma_method_names()
    ensures
        "open_project"@.len() == 12 && "open_project"@[0] == 'o',
        "list_recent_projects"@.len() == 20,
        "create_thread"@.len() == 13 && "create_thread"@[0] == 'c',
        "list_threads"@.len() == 12 && "list_threads"@[0] == 'l',
        "rename_thread"@.len() == 13 && "rename_thread"@[0] == 'r',
        "archive_thread"@.len() == 14 && "archive_thread"@[0] == 'a',
        "create_terminal"@.len() == 15 && "create_terminal"@[0] == 'c',
        "send_terminal_input"@.len() == 19,
        "resize_terminal"@.len() == 15 && "resize_terminal"@[0] == 'r',
        "close_terminal"@.len() == 14 && "close_terminal"@[0] == 'c',
        "start_run"@.len() == 9 && "start_run"@[0] == 's',
        "list_runs"@.len() == 9 && "list_runs"@[0] == 'l',
        "list_run_events"@.len() == 15 && "list_run_events"@[0] == 'l',
{
    reveal_strlit("open_project");
    reveal_strlit("list_recent_projects");
    reveal_strlit("create_thread");
    reveal_strlit("list_threads");
    reveal_strlit("rename_thread");
    reveal_strlit("archive_thread");
    reveal_strlit("create_terminal");
    reveal_strlit("send_terminal_input");
    reveal_strlit("resize_terminal");
    reveal_strlit("close_terminal");
    reveal_strlit("start_run");
    reveal_strlit("list_runs");
    reveal_strlit("list_run_events");
}

/// Feature requests carry out what their parameters say: `open_project` the
/// `path` given; `create_thread` the `title` given (none: the default);
/// `rename_thread` to the `title` given; `send_terminal_input` the `data`
/// given; `start_run` on the `prompt` given; and `resize_terminal` to the
/// `rows` and `cols` given (as `u16`, as the terminal takes them).
pub proof fn lemma_commands_take_their_parameters(p: Seq<(Seq<char>, crate::rpc::ParamValueView)>)
    ensures
        param_str(p, "path"@) matches Some(x) ==> command_for("open_project"@, p) == Some(
            Ok::<CommandView, Seq<char>>(CommandView::OpenProject { path: x }),
        ),
        need_uuid(p, "project_id"@) matches Ok(u) ==> command_for("create_thread"@, p) == Some(
            Ok::<CommandView, Seq<char>>(
                CommandView::CreateThread { project_id: u, title: param_str(p, "title"@) },
            ),
        ),
        need_uuid(p, "thread_id"@) matches Ok(u) ==> (param_str(p, "title"@) matches Some(t)
            ==> command_for("rename_thread"@, p) == Some(
            Ok::<CommandView, Seq<char>>(CommandView::RenameThread { thread_id: u, title: t }),
        )),
        need_uuid(p, "session_id"@) matches Ok(u) ==> (param_str(p, "data"@) matches Some(d)
            ==> command_for("send_terminal_input"@, p) == Some(
            Ok::<CommandView, Seq<char>>(CommandView::SendTerminalInput { session_id: u, data: d }),
        )),
        need_uuid(p, "thread_id"@) matches Ok(u) ==> (param_str(p, "prompt"@) matches Some(t)
            ==> command_for("start_run"@, p) == Some(
            Ok::<CommandView, Seq<char>>(CommandView::StartRun { thread_id: u, prompt: t }),
        )),
        need_uuid(p, "session_id"@) matches Ok(u) ==> (param_u64(p, "rows"@) matches Some(r)
            ==> (param_u64(p, "cols"@) matches Some(c) ==> command_for("resize_terminal"@, p)
            == Some(
            Ok::<CommandView, Seq<char>>(
                CommandView::ResizeTerminal { session_id: u, rows: r as u16, cols: c as u16 },
            ),
        ))),
{
    lemma_method_names();
}

} // verus!
