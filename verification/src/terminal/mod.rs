//! Terminal sessions: identifiers, errors, the notifications sent to the
//! event sink, and the modules that decide what a session manager does.

use vstd::prelude::*;
use vstd::string::StringExecFns;

pub mod launch;
pub mod lifecycle;
pub mod provenance;
pub mod pump;
pub mod registry;
pub mod session_manager;

verus! {

/// The identifier of one spawned session.
#[derive(Clone, Debug)]
pub struct SessionId(pub String);

/// Why an operation on a session failed.
#[derive(Debug)]
pub enum TerminalError {
    /// The session identifier is not tracked (never issued, closed, or its
    /// process has ended).
    NotFound,
    /// The pseudo-terminal or the process layer failed; the text is its
    /// diagnostic.
    Backend(String),
}

impl TerminalError {
    /// The text shown for this error.
    pub open spec fn message(self) -> Seq<char> {
        match self {
            TerminalError::NotFound => "terminal session not found"@,
            TerminalError::Backend(msg) => "terminal backend error: "@ + msg@,
        }
    }

    /// The text shown for this error, as a new string.
    pub fn to_string(&self) -> (s: String)
        ensures
            s@ == self.message(),
    {
        match self {
            TerminalError::NotFound => String::from_str("terminal session not found"),
            TerminalError::Backend(msg) => String::from_str("terminal backend error: ").concat(
                msg.as_str(),
            ),
        }
    }
}

/// What the caller reports of an operation of the pseudo-terminal or process
/// layer (opening, spawning, writing, resizing): success, or the layer's
/// diagnostic. A failure becomes a `Backend` error that carries the
/// diagnostic; nothing is retried.
pub fn backend_result<T>(outcome: Result<T, String>) -> (r: Result<T, TerminalError>)
    ensures
        match outcome {
            Ok(v) => r == Ok::<T, TerminalError>(v),
            Err(msg) => r == Err::<T, TerminalError>(TerminalError::Backend(msg)),
        },
{
    match outcome {
        Ok(v) => Ok(v),
        Err(msg) => Err(TerminalError::Backend(msg)),
    }
}

/// The name under which a `TerminalDataEvent` is sent.
pub const DATA_EVENT: &'static str = "terminal:data";

/// The name under which a `TerminalExitEvent` is sent.
pub const EXIT_EVENT: &'static str = "terminal:exit";

/// Sent to the event sink for each chunk read from a session.
#[derive(Clone)]
pub struct TerminalDataEvent {
    pub session_id: String,
    pub data: String,
}

/// Sent to the event sink once when a session's process has ended by itself.
#[derive(Clone)]
pub struct TerminalExitEvent {
    pub session_id: String,
}

} // verus!
