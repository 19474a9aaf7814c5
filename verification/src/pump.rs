//! The output pump: the per-session state machine behind the background
//! task that drains a session's terminal output, forwards it as data
//! notifications, and retires the session with exactly one exit
//! notification.
//!
//! The pump owns no OS resource itself. The host's pump thread performs the
//! blocking reads, the registry removal and the process wait, and feeds the
//! outcomes in; the pump decides what to emit and guarantees the
//! notification order: all data events first, then one exit event, then
//! nothing.

use vstd::prelude::*;

verus! {

/// What `String::from_utf8_lossy` returns for a given byte sequence:
/// UTF-8 decoded text with every invalid sequence replaced. A function of
/// the bytes alone.
pub uninterp spec fn lossy_utf8(bytes: Seq<u8>) -> Seq<char>;

/// Relies on `String::from_utf8_lossy`: decodes the bytes as UTF-8,
/// replacing invalid sequences with the replacement character; never fails,
/// and the result depends on the bytes alone.
#[verifier::external_body]
fn decode_lossy(bytes: &[u8]) -> (r: String)
    ensures
        r@ == lossy_utf8(bytes@),
{
    String::from_utf8_lossy(bytes).into_owned()
}

/// A data notification: one decoded chunk of terminal output.
pub struct PtyData {
    pub session_id: String,
    pub data: String,
}

/// An exit notification: the child's exit status, or the sentinel when the
/// status could not be determined.
pub struct PtyExit {
    pub session_id: String,
    pub code: i32,
}

/// The exit code reported when no status could be obtained.
pub const INDETERMINATE_EXIT: i32 = -1;

/// The model of one emitted notification.
pub enum Event {
    Data(Seq<char>),
    Exit(int),
}

/// Whether a sequence of events consists of data events only.
pub open spec fn data_only(s: Seq<Event>) -> bool {
    forall|i: int| 0 <= i < s.len() ==> s[i] is Data
}

/// The pump's lifecycle phase.
#[derive(Clone, Copy, PartialEq, Eq, Structural, Debug)]
pub enum Phase {
    /// Blocking reads of the output stream are still being made.
    Reading,
    /// The stream has ended; the registry entry is being removed and the
    /// exit status reaped.
    Draining,
    /// The exit notification has been emitted; nothing follows.
    Retired,
}

/// One session's output pump.
pub struct OutputPump {
    session_id: String,
    phase: Phase,
    emitted: Ghost<Seq<Event>>,
}

impl OutputPump {
    /// The identifier every notification of this pump is tagged with.
    pub closed spec fn session_id(&self) -> Seq<char> {
        self.session_id@
    }

    /// The pump's lifecycle phase.
    pub closed spec fn phase(&self) -> Phase {
        self.phase
    }

    /// The model of all notifications emitted so far, in order.
    pub closed spec fn emitted(&self) -> Seq<Event> {
        self.emitted@
    }

    /// Well-formedness: while the pump has not retired, only data events
    /// have been emitted; once retired, the log is data events followed by
    /// exactly one exit event at the end.
    pub open spec fn wf(&self) -> bool {
        match self.phase() {
            Phase::Reading => data_only(self.emitted()),
            Phase::Draining => data_only(self.emitted()),
            Phase::Retired => self.emitted().len() >= 1 && self.emitted().last() is Exit
                && data_only(self.emitted().drop_last()),
        }
    }

    /// A fresh pump for `session_id`: reading, nothing emitted yet.
    /// Exactly one is created per session, by spawn.
    pub fn new(session_id: String) -> (p: OutputPump)
        ensures
            p.wf(),
            p.session_id() == session_id@,
            p.phase() == Phase::Reading,
            p.emitted() == Seq::<Event>::empty(),
    {
        OutputPump { session_id, phase: Phase::Reading, emitted: Ghost(Seq::empty()) }
    }

    /// The pump's phase, for the host's pump loop.
    pub fn current_phase(&self) -> (p: Phase)
        ensures
            p == self.phase(),
    {
        self.phase
    }

    /// One successful, non-empty read from the output stream: decode the
    /// chunk lossily and produce the data notification to deliver, tagged
    /// with this session's identifier. Arrival order is preserved: the
    /// event is appended to the emitted log.
    pub fn on_chunk(&mut self, chunk: &[u8]) -> (ev: PtyData)
        requires
            old(self).wf(),
            old(self).phase() == Phase::Reading,
            chunk@.len() > 0,
        ensures
            final(self).wf(),
            final(self).phase() == Phase::Reading,
            final(self).session_id() == old(self).session_id(),
            final(self).emitted() == old(self).emitted().push(Event::Data(lossy_utf8(chunk@))),
            ev.session_id@ == old(self).session_id(),
            ev.data@ == lossy_utf8(chunk@),
    {
        let data = decode_lossy(chunk);
        proof {
            self.emitted@ = self.emitted@.push(Event::Data(lossy_utf8(chunk@)));
        }
        PtyData { session_id: self.session_id.clone(), data }
    }

    /// End of stream: a zero-length read or a read error (the two are
    /// treated identically; output already emitted is not retracted). Stop
    /// reading and move to draining; nothing is emitted here.
    pub fn on_stream_end(&mut self)
        requires
            old(self).wf(),
            old(self).phase() == Phase::Reading,
        ensures
            final(self).wf(),
            final(self).phase() == Phase::Draining,
            final(self).session_id() == old(self).session_id(),
            final(self).emitted() == old(self).emitted(),
    {
        self.phase = Phase::Draining;
    }

    /// The status the exit notification carries: the reaped status when one
    /// was obtained, the sentinel otherwise.
    pub open spec fn exit_code_of(status: Option<i32>) -> i32 {
        match status {
            Some(c) => c,
            None => INDETERMINATE_EXIT,
        }
    }

    /// Retirement: the host has removed the session's registry entry (a
    /// no-op if a concurrent kill already had) and attempted to reap the
    /// exit status; `status` is `None` when the process handle was already
    /// gone or the wait failed. Produces the session's single exit
    /// notification; after this the pump accepts no further step.
    pub fn retire(&mut self, status: Option<i32>) -> (ev: PtyExit)
        requires
            old(self).wf(),
            old(self).phase() == Phase::Draining,
        ensures
            final(self).wf(),
            final(self).phase() == Phase::Retired,
            final(self).session_id() == old(self).session_id(),
            final(self).emitted() == old(self).emitted().push(
                Event::Exit(Self::exit_code_of(status) as int),
            ),
            ev.session_id@ == old(self).session_id(),
            ev.code == Self::exit_code_of(status),
    {
        let code: i32 = match status {
            Some(c) => c,
            None => INDETERMINATE_EXIT,
        };
        self.phase = Phase::Retired;
        proof {
            self.emitted@ = self.emitted@.push(Event::Exit(code as int));
            assert(self.emitted@.drop_last() =~= old(self).emitted());
        }
        PtyExit { session_id: self.session_id.clone(), code }
    }
}

/// Law: for any session, the notifications emitted over the pump's whole
/// lifetime are zero or more data events followed by exactly one exit
/// event. Since no pump step accepts a retired pump, nothing is emitted
/// after the exit event.
pub proof fn lemma_notification_order(p: OutputPump)
    requires
        p.wf(),
        p.phase() == Phase::Retired,
    ensures
        p.emitted().len() >= 1,
        p.emitted().last() is Exit,
        forall|i: int| 0 <= i < p.emitted().len() - 1 ==> p.emitted()[i] is Data,
{
    assert forall|i: int| 0 <= i < p.emitted().len() - 1 implies p.emitted()[i] is Data by {
        assert(p.emitted().drop_last()[i] == p.emitted()[i]);
    }
}

/// Law: before retirement no exit event has been emitted; the exit
/// notification never precedes a data notification of the same session.
pub proof fn lemma_no_exit_before_retirement(p: OutputPump)
    requires
        p.wf(),
        p.phase() != Phase::Retired,
    ensures
        forall|i: int| 0 <= i < p.emitted().len() ==> p.emitted()[i] is Data,
{
}

} // verus!
