use vstd::prelude::*;
use crate::types::Size;

verus! {

/// Identifier of a terminal session.
#[derive(Clone, Copy, Debug, PartialEq, Eq, Hash, Structural)]
pub struct SessionId(pub u64);

impl SessionId {
    /// The identifier with the given number; numbers are handed out by the
    /// caller, one per session.
    pub fn new(value: u64) -> (r: SessionId)
        ensures
            r.0 == value,
    {
        SessionId(value)
    }

    pub fn value(&self) -> (r: u64)
        ensures
            r == self.0,
    {
        self.0
    }
}

/// Metadata of a session.
#[derive(Clone, Debug)]
pub struct SessionInfo {
    pub id: SessionId,
    pub title: String,
    /// Seconds since the Unix epoch.
    pub created_at: u64,
    pub size: Size,
    pub working_directory: Option<String>,
}

impl SessionInfo {
    pub fn new(id: SessionId, title: String, created_at: u64, size: Size, working_directory: Option<String>) -> (r:
        SessionInfo)
        ensures
            r.id == id,
            r.title@ == title@,
            r.created_at == created_at,
            r.size == size,
            r.working_directory == working_directory,
    {
        SessionInfo { id, title, created_at, size, working_directory }
    }
}

} // verus!
