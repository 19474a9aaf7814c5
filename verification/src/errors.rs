//! The error taxonomy of the command surface.

use vstd::prelude::*;

verus! {

/// An error reported synchronously to a command-surface caller.
///
/// Failures inside the output pump are never reported here; they are
/// absorbed into the pump's retirement and surface only as the sentinel
/// exit code of the final exit notification.
#[derive(Debug)]
pub enum SessionError {
    /// Pseudo-terminal allocation or process launch failed during spawn;
    /// carries the underlying OS error text. Nothing was registered.
    Alloc(String),
    /// Spawn was called with an identifier that is still registered.
    Collision,
    /// Write, resize or kill referenced an identifier with no live entry.
    NotFound,
    /// An OS-level operation on a live session failed (write flush,
    /// resize request, termination request); carries the OS error text.
    Io(String),
}

impl SessionError {
    /// The message reported to the host, one fixed text per variant and
    /// the OS error text passed through unchanged.
    pub fn message(&self) -> (r: String)
        ensures
            r@ == match self {
                SessionError::Alloc(s) => s@,
                SessionError::Collision => "Session already exists"@,
                SessionError::NotFound => "Session not found"@,
                SessionError::Io(s) => s@,
            },
    {
        match self {
            SessionError::Alloc(s) => s.clone(),
            SessionError::Collision => "Session already exists".to_owned(),
            SessionError::NotFound => "Session not found".to_owned(),
            SessionError::Io(s) => s.clone(),
        }
    }
}

} // verus!
