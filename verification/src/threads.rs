//! Conversation threads: creating, renaming and archiving them.
//!
//! The stored copy of a thread is looked up by the caller; these functions
//! decide what the record becomes.

use vstd::prelude::*;
use crate::ids::{hyphenated_text, Timestamp, Uuid};
use crate::models::Thread;

verus! {

/// Errors from thread operations. A storage failure carries the message of
/// the database error that caused it.
pub enum Error {
    NotFound(Uuid),
    Storage(String),
}

/// The title a new thread gets when none is given.
pub open spec fn default_title() -> Seq<char> {
    "New thread"@
}

/// The title of a new thread: the one given, or the default.
pub open spec fn title_of(title: Option<Seq<char>>) -> Seq<char> {
    match title {
        Some(t) => t,
        None => default_title(),
    }
}

pub open spec fn opt_view(title: Option<String>) -> Option<Seq<char>> {
    match title {
        Some(t) => Some(t@),
        None => None,
    }
}

/// A fresh thread of a project, created now, neither archived nor touched
/// since.
pub fn create_thread(project_id: Uuid, title: Option<String>, now: Timestamp) -> (t: Thread)
    ensures
        t.project_id == project_id,
        t.title@ == title_of(opt_view(title)),
        !t.archived,
        t.created_at == now,
        t.updated_at == now,
{
    let title = match title {
        Some(t) => t,
        None => String::from_str("New thread"),
    };
    Thread {
        id: Uuid::new_v4(),
        project_id,
        title,
        archived: false,
        created_at: now,
        updated_at: now,
    }
}

/// The stored thread, or `NotFound` when the lookup found none.
pub fn found(thread_id: Uuid, stored: Option<Thread>) -> (r: Result<Thread, Error>)
    ensures
        match stored {
            Some(t) => r == Ok::<Thread, Error>(t),
            None => r matches Err(Error::NotFound(id)) && id == thread_id,
        },
{
    match stored {
        Some(t) => Ok(t),
        None => Err(Error::NotFound(thread_id)),
    }
}

/// The thread under a new title, updated now. Everything else stays.
pub fn rename_thread(
    thread_id: Uuid,
    stored: Option<Thread>,
    new_title: String,
    now: Timestamp,
) -> (r: Result<Thread, Error>)
    ensures
        match stored {
            Some(t) => r matches Ok(n) && n.id == t.id && n.project_id == t.project_id
                && n.title@ == new_title@ && n.archived == t.archived && n.created_at
                == t.created_at && n.updated_at == now,
            None => r matches Err(Error::NotFound(id)) && id == thread_id,
        },
{
    let mut thread = match found(thread_id, stored) {
        Ok(t) => t,
        Err(e) => return Err(e),
    };
    thread.title = new_title;
    thread.updated_at = now;
    Ok(thread)
}

/// The thread archived (a soft delete), updated now. Everything else stays.
pub fn archive_thread(thread_id: Uuid, stored: Option<Thread>, now: Timestamp) -> (r: Result<
    Thread,
    Error,
>)
    ensures
        match stored {
            Some(t) => r matches Ok(n) && n.id == t.id && n.project_id == t.project_id
                && n.title == t.title && n.archived && n.created_at == t.created_at
                && n.updated_at == now,
            None => r matches Err(Error::NotFound(id)) && id == thread_id,
        },
{
    let mut thread = match found(thread_id, stored) {
        Ok(t) => t,
        Err(e) => return Err(e),
    };
    thread.archived = true;
    thread.updated_at = now;
    Ok(thread)
}

impl Error {
    /// The error's message, as the user sees it.
    pub fn message(&self) -> (r: String)
        ensures
            self matches Error::Storage(m) ==> r@ == "storage error: "@ + m@,
            self matches Error::NotFound(id) ==> r@ == "thread not found: "@
                + hyphenated_text(id.0),
    {
        match self {
            Error::NotFound(id) => String::from_str("thread not found: ").concat(
                id.hyphenated().as_str(),
            ),
            Error::Storage(m) => String::from_str("storage error: ").concat(m.as_str()),
        }
    }
}

} // verus!
