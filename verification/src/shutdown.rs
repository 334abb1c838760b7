//! The shutdown protocol of one run.  The sender stops first; the
//! receiver keeps draining in-flight replies for a bounded grace
//! window and then exits.  The phases only ever move forward, and
//! reporting the same event twice changes nothing more than once.

use vstd::prelude::*;

verus! {

/// How long the receiver keeps waiting per idle cycle while draining,
/// in milliseconds, once the sender has stopped.  When a full window
/// passes with nothing arriving, the receiver exits, even if that
/// discards replies that never came: a bounded-loss guarantee.
pub const GRACE_WINDOW_MS: u64 = 500;

/// Where a run stands: both loops active; sender done, receiver still
/// draining; or both done.
#[derive(Clone, Copy, Debug, PartialEq, Eq, Structural)]
pub enum RunPhase {
    /// Both loops active, the stop flag clear.
    Running,
    /// The sender has exited and set the stop flag; the receiver still
    /// polls with a bounded timeout.
    Draining,
    /// The receiver has exited too; the state is ready for reporting.
    Stopped,
}

/// What moves a run between phases.
#[derive(Clone, Copy, Debug, PartialEq, Eq, Structural)]
pub enum RunEvent {
    /// The sender's budget is spent or cancellation fired.
    SenderFinished,
    /// The receiver's grace window elapsed with nothing more arriving.
    GraceExpired,
    /// An unrecoverable socket error ended the receiver.
    SocketError,
}

/// How a run moves: the sender's exit starts the drain, the grace
/// window's expiry or a socket error ends it; nothing moves a run
/// backwards, and an event out of turn changes nothing.
pub open spec fn spec_advance_phase(phase: RunPhase, event: RunEvent) -> RunPhase {
    match (phase, event) {
        (RunPhase::Running, RunEvent::SenderFinished) => RunPhase::Draining,
        (RunPhase::Running, RunEvent::SocketError) => RunPhase::Stopped,
        (RunPhase::Draining, RunEvent::GraceExpired) => RunPhase::Stopped,
        (RunPhase::Draining, RunEvent::SocketError) => RunPhase::Stopped,
        (p, _) => p,
    }
}

/// A phase's place in the one-way order of a run.
pub open spec fn phase_rank(phase: RunPhase) -> int {
    match phase {
        RunPhase::Running => 0,
        RunPhase::Draining => 1,
        RunPhase::Stopped => 2,
    }
}

/// Advance the run by one observed event.
pub fn advance_phase(phase: RunPhase, event: RunEvent) -> (p: RunPhase)
    ensures
        p == spec_advance_phase(phase, event),
{
    match (phase, event) {
        (RunPhase::Running, RunEvent::SenderFinished) => RunPhase::Draining,
        (RunPhase::Running, RunEvent::SocketError) => RunPhase::Stopped,
        (RunPhase::Draining, RunEvent::GraceExpired) => RunPhase::Stopped,
        (RunPhase::Draining, RunEvent::SocketError) => RunPhase::Stopped,
        (p, _) => p,
    }
}

/// A run never moves backwards: no event lowers the phase.
pub proof fn lemma_phase_monotone(phase: RunPhase, event: RunEvent)
    ensures
        phase_rank(spec_advance_phase(phase, event)) >= phase_rank(phase),
{
}

/// Every event is idempotent: observing it a second time in a row
/// changes nothing — in particular, cancellation may fire twice.
pub proof fn lemma_advance_idempotent(phase: RunPhase, event: RunEvent)
    ensures
        spec_advance_phase(spec_advance_phase(phase, event), event) == spec_advance_phase(
            phase,
            event,
        ),
{
}

} // verus!
