//! Domain value types: session kinds, the timer record, themes, persisted
//! sessions and the error taxonomy of the session store.

use vstd::prelude::*;

verus! {

/// Kind of interval the timer is running; decides which theme slot is
/// active while the timer is playing.
#[derive(Clone, Copy, Debug, PartialEq, Eq, Structural)]
pub enum SessionType {
    Focus,
    Break,
    LongBreak,
}

/// Live timer status: what kind of interval is selected and whether the
/// timer is currently running.
#[derive(Clone, Copy, Debug, PartialEq, Eq, Structural)]
pub struct TimerState {
    pub session_type: SessionType,
    pub is_playing: bool,
}

/// A visual theme. Immutable value: a slot is always replaced wholesale.
pub struct Theme {
    pub id: String,
    pub name: String,
}

impl Clone for Theme {
    fn clone(&self) -> (other: Self)
        ensures
            other == *self,
    {
        Theme { id: self.id.clone(), name: self.name.clone() }
    }
}

/// Input for creating a session; the identifier is assigned by the store.
#[derive(Clone, Copy, Debug, PartialEq, Eq, Structural)]
pub struct CreateSession {
    pub session_type: SessionType,
    pub duration_secs: u32,
}

/// A persisted work session: the creation fields plus the assigned id.
#[derive(Clone, Copy, Debug, PartialEq, Eq, Structural)]
pub struct Session {
    pub id: i32,
    pub session_type: SessionType,
    pub duration_secs: u32,
}

/// Optional filter for listing sessions; an absent field means
/// "no constraint".
#[derive(Clone, Copy, Debug)]
pub struct GetSessionsOptions {
    pub session_type: Option<SessionType>,
}

/// Errors of the session store. Lock poisoning is deliberately absent: it
/// is fatal and aborts in the host process instead of being surfaced here.
#[derive(Clone, Copy, Debug, PartialEq, Eq, Structural)]
pub enum Error {
    /// No session carries the requested id.
    NotFound,
    /// The storage collaborator could not complete the operation.
    StorageError,
}

} // verus!
