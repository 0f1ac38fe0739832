//! Terminal sessions: the table of live sessions, the events a session's
//! output stream produces, and the records kept of each session.

use vstd::prelude::*;
use std::collections::HashMap;
use crate::git::{string_from_utf8_lossy, utf8_lossy};
use crate::ids::{hyphenated_text, Timestamp, Uuid};
use crate::models::TerminalSession;

verus! {

broadcast use vstd::std_specs::hash::group_hash_axioms;

/// Errors from terminal operations. PTY and I/O failures carry the message
/// of the error that caused them.
pub enum Error {
    NotFound(Uuid),
    Pty(String),
    Io(String),
}

impl Error {
    /// The error's message, as the user sees it.
    pub fn message(&self) -> (r: String)
        ensures
            self matches Error::NotFound(id) ==> r@ == "terminal session not found: "@
                + hyphenated_text(id.0),
            self matches Error::Pty(m) ==> r@ == "pty error: "@ + m@,
            self matches Error::Io(m) ==> r@ == "io error: "@ + m@,
    {
        match self {
            Error::NotFound(id) => String::from_str("terminal session not found: ").concat(
                id.hyphenated().as_str(),
            ),
            Error::Pty(m) => String::from_str("pty error: ").concat(m.as_str()),
            Error::Io(m) => String::from_str("io error: ").concat(m.as_str()),
        }
    }
}

/// What a terminal session's output stream produces.
pub enum TerminalEvent {
    Output { session_id: Uuid, data: String },
    Exit { session_id: Uuid, exit_code: Option<u32> },
}

impl TerminalEvent {
    /// The notification that carries this event to the client.
    pub fn notification_method(&self) -> (r: String)
        ensures
            self is Output ==> r@ == "terminal:output"@,
            self is Exit ==> r@ == "terminal:exit"@,
    {
        match self {
            TerminalEvent::Output { .. } => String::from_str("terminal:output"),
            TerminalEvent::Exit { .. } => String::from_str("terminal:exit"),
        }
    }

    /// Whether the stream ends after this event: only the exit ends it.
    pub fn ends_stream(&self) -> (r: bool)
        ensures
            r == self is Exit,
    {
        match self {
            TerminalEvent::Output { .. } => false,
            TerminalEvent::Exit { .. } => true,
        }
    }

    /// The session the event belongs to.
    pub fn session_id(&self) -> (r: Uuid)
        ensures
            r == match self {
                TerminalEvent::Output { session_id, .. } => *session_id,
                TerminalEvent::Exit { session_id, .. } => *session_id,
            },
    {
        match self {
            TerminalEvent::Output { session_id, .. } => *session_id,
            TerminalEvent::Exit { session_id, .. } => *session_id,
        }
    }
}

/// The event for a chunk read from a session's PTY: an empty read is the end
/// of the stream, so the session exited (with the code its process reported,
/// if any); otherwise the bytes, decoded leniently, are output.
pub fn read_event(session_id: Uuid, chunk: &[u8], exit_code: Option<u32>) -> (e: TerminalEvent)
    ensures
        chunk@.len() == 0 ==> e == (TerminalEvent::Exit { session_id, exit_code }),
        chunk@.len() > 0 ==> (e matches TerminalEvent::Output { session_id: s, data } && s
            == session_id && data@ == utf8_lossy(chunk@)),
{
    if chunk.len() == 0 {
        TerminalEvent::Exit { session_id, exit_code }
    } else {
        TerminalEvent::Output { session_id, data: string_from_utf8_lossy(chunk) }
    }
}

/// The live sessions, by id.
pub struct SessionTable<S> {
    sessions: HashMap<u128, S>,
}

impl<S> View for SessionTable<S> {
    type V = Map<u128, S>;

    closed spec fn view(&self) -> Map<u128, S> {
        self.sessions@
    }
}

impl<S> SessionTable<S> {
    /// An empty table.
    pub fn new() -> (t: SessionTable<S>)
        ensures
            t@ == Map::<u128, S>::empty(),
    {
        SessionTable { sessions: HashMap::new() }
    }

    /// Registers a session under its id.
    pub fn insert(&mut self, id: Uuid, session: S)
        ensures
            final(self)@ == old(self)@.insert(id.0, session),
    {
        self.sessions.insert(id.0, session);
    }

    /// Whether a session with this id is live.
    pub fn contains(&self, id: Uuid) -> (r: bool)
        ensures
            r == self@.contains_key(id.0),
    {
        self.sessions.contains_key(&id.0)
    }

    /// The live session with this id, or `NotFound`.
    pub fn get(&self, id: Uuid) -> (r: Result<&S, Error>)
        ensures
            self@.contains_key(id.0) ==> r == Ok::<&S, Error>(&self@[id.0]),
            !self@.contains_key(id.0) ==> (r matches Err(Error::NotFound(i)) && i == id),
    {
        match self.sessions.get(&id.0) {
            Some(s) => Ok(s),
            None => Err(Error::NotFound(id)),
        }
    }

    /// Takes the session with this id out of the table, or fails with
    /// `NotFound` and leaves the table as it was.
    pub fn remove(&mut self, id: Uuid) -> (r: Result<S, Error>)
        ensures
            final(self)@ == old(self)@.remove(id.0),
            old(self)@.contains_key(id.0) ==> r == Ok::<S, Error>(old(self)@[id.0]),
            !old(self)@.contains_key(id.0) ==> (r matches Err(Error::NotFound(i)) && i
                == id),
    {
        match self.sessions.remove(&id.0) {
            Some(s) => Ok(s),
            None => Err(Error::NotFound(id)),
        }
    }
}

/// A session registered under an id is live; after it is removed it is not,
/// and removing it again fails with `NotFound`.
pub proof fn lemma_session_lifecycle<S>(t: Map<u128, S>, id: Uuid, s: S)
    ensures
        t.insert(id.0, s).contains_key(id.0),
        t.insert(id.0, s)[id.0] == s,
        !t.insert(id.0, s).remove(id.0).contains_key(id.0),
        t.insert(id.0, s).remove(id.0).remove(id.0) == t.insert(id.0, s).remove(id.0),
{
    assert(t.insert(id.0, s).remove(id.0).remove(id.0) =~= t.insert(id.0, s).remove(id.0));
}

/// The record of a terminal session opened now: open, with no exit code yet.
pub fn new_session(
    project_id: Uuid,
    worktree_id: Option<Uuid>,
    cwd: String,
    now: Timestamp,
) -> (s: TerminalSession)
    ensures
        s.created_at == now,
        s.project_id == project_id,
        s.worktree_id == worktree_id,
        s.cwd@ == cwd@,
        s.exit_code is None,
        s.closed_at is None,
{
    TerminalSession {
        id: Uuid::new_v4(),
        project_id,
        worktree_id,
        cwd,
        exit_code: None,
        created_at: now,
        closed_at: None,
    }
}

/// The record of a session closed now: stamped with the time of closing,
/// all else kept.
pub fn closed_session(s: TerminalSession, now: Timestamp) -> (r: TerminalSession)
    ensures
        r.id == s.id,
        r.project_id == s.project_id,
        r.worktree_id == s.worktree_id,
        r.cwd == s.cwd,
        r.exit_code == s.exit_code,
        r.created_at == s.created_at,
        r.closed_at == Some(now),
{
    let mut s = s;
    s.closed_at = Some(now);
    s
}

} // verus!
