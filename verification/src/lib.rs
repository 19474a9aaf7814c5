//! A registry for pseudo-terminal-backed child sessions: spawn, write,
//! resize and kill against a lock-protected table of session handles, plus
//! the per-session output pump that drains terminal output and retires the
//! session exactly once.

pub mod errors;
pub mod pump;
pub mod registry;
pub mod session;
