//! The command surface: spawn, write, resize and kill as decisions against
//! the registry.
//!
//! The host owns the OS resources and performs the blocking calls (opening
//! the pseudo-terminal, launching the child, writing, the resize request,
//! the termination request); each function here makes the command's
//! registry decision — collision, lookup, removal — and tells the host,
//! through its result, exactly what to do with which handle. `T` is the
//! host's session handle: the input sink, process control handle and
//! terminal control handle of one child.

use vstd::prelude::*;

use crate::errors::SessionError;
use crate::pump::{Event, OutputPump, Phase};
use crate::registry::Registry;

verus! {

/// A terminal geometry in character cells.
#[derive(Clone, Copy, PartialEq, Eq, Structural, Debug)]
pub struct Geometry {
    pub cols: u16,
    pub rows: u16,
}

/// The fixed geometry every session starts with; it changes only through
/// resize.
pub fn initial_geometry() -> (g: Geometry)
    ensures
        g.cols == 80,
        g.rows == 24,
{
    Geometry { cols: 80, rows: 24 }
}

/// Spawn, after the host has allocated the pseudo-terminal and launched
/// the child: register the handle under `session_id` and hand back the
/// session's one output pump, which the host gives to the dedicated reader
/// thread it starts.
///
/// When `session_id` is already registered the spawn is refused, nothing
/// is registered, no pump exists, and the handle comes back in `Err` so
/// the host can release the freshly allocated resources; the caller is
/// told of the collision. A failed allocation never reaches this point, so
/// a failed spawn registers nothing.
pub fn spawn_pty<T>(reg: &mut Registry<T>, session_id: &String, handle: T) -> (r: Result<
    OutputPump,
    T,
>)
    requires
        old(reg).wf(),
    ensures
        final(reg).wf(),
        !old(reg)@.contains_key(session_id@) ==> match r {
            Ok(p) => final(reg)@ == old(reg)@.insert(session_id@, handle) && p.wf()
                && p.session_id() == session_id@ && p.phase() == Phase::Reading && p.emitted()
                == Seq::<Event>::empty(),
            Err(_) => false,
        },
        old(reg)@.contains_key(session_id@) ==> r == Result::<OutputPump, T>::Err(handle)
            && final(reg)@ == old(reg)@,
{
    match reg.try_insert(session_id.clone(), handle) {
        Ok(()) => Ok(OutputPump::new(session_id.clone())),
        Err(h) => Err(h),
    }
}

/// Write: look up the input sink for `session_id`. On success the host
/// writes the full payload to the returned handle and flushes before
/// letting go of the lock; a failed write leaves the session registered
/// and retryable. A never-spawned or already-retired identifier is
/// reported as not-found and nothing changes.
pub fn write_pty<'a, T>(reg: &'a mut Registry<T>, session_id: &String) -> (r: Result<
    &'a mut T,
    SessionError,
>)
    requires
        old(reg).wf(),
    ensures
        final(reg).wf(),
        match r {
            Ok(h) => old(reg)@.contains_key(session_id@) && *h == old(reg)@[session_id@]
                && final(reg)@ == old(reg)@.insert(session_id@, *final(h)),
            Err(e) => e == SessionError::NotFound && !old(reg)@.contains_key(session_id@)
                && final(reg)@ == old(reg)@,
        },
{
    match reg.get_mut(session_id) {
        Some(h) => Ok(h),
        None => Err(SessionError::NotFound),
    }
}

/// Resize: look up the terminal control handle for `session_id` and hand
/// back the geometry to apply; the host performs the actual resize request
/// against the returned handle. A never-spawned or already-retired
/// identifier is reported as not-found.
pub fn resize_pty<'a, T>(reg: &'a Registry<T>, session_id: &String, cols: u16, rows: u16) -> (r:
    Result<(&'a T, Geometry), SessionError>)
    requires
        reg.wf(),
    ensures
        match r {
            Ok((h, g)) => reg@.contains_key(session_id@) && *h == reg@[session_id@] && g
                == (Geometry { cols, rows }),
            Err(e) => e == SessionError::NotFound && !reg@.contains_key(session_id@),
        },
{
    match reg.get(session_id) {
        Some(h) => Ok((h, Geometry { cols, rows })),
        None => Err(SessionError::NotFound),
    }
}

/// Kill: remove the session's entry — the sole forced-retirement path —
/// and hand the handle to the host, which requests forceful termination of
/// the child. The entry is gone whether or not that request later
/// succeeds, and no exit notification is produced here: the session's
/// output pump observes the closing stream and emits the single exit
/// notification itself. Killing an identifier that was never spawned or
/// was already retired is reported as not-found and changes nothing.
pub fn kill_pty<T>(reg: &mut Registry<T>, session_id: &String) -> (r: Result<T, SessionError>)
    requires
        old(reg).wf(),
    ensures
        final(reg).wf(),
        final(reg)@ == old(reg)@.remove(session_id@),
        !final(reg)@.contains_key(session_id@),
        match r {
            Ok(h) => old(reg)@.contains_key(session_id@) && h == old(reg)@[session_id@],
            Err(e) => e == SessionError::NotFound && !old(reg)@.contains_key(session_id@),
        },
{
    match reg.remove(session_id) {
        Some(h) => Ok(h),
        None => Err(SessionError::NotFound),
    }
}

} // verus!
