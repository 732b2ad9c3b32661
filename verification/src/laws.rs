//! Properties of the timer that relate several operations or whole runs of
//! ticks, proved once and for all here.

use vstd::prelude::*;

use crate::machine::TimerMachine;
use crate::phase::TimerState;

verus! {

/// The state after `n` consecutive ticks of `s`.
pub open spec fn spec_tick_n(s: TimerMachine, n: nat) -> TimerMachine
    decreases n,
{
    if n == 0 {
        s
    } else {
        spec_tick_n(s, (n - 1) as nat).spec_tick()
    }
}

/// While the timer runs and seconds remain, every tick takes exactly one
/// second off and changes nothing else: after `n` ticks of a running state
/// with at least `n` seconds left, exactly `n` seconds are gone and the phase,
/// the running flag and the session count are untouched.
pub proof fn lemma_running_countdown(s: TimerMachine, n: nat)
    requires
        s.running,
        n <= s.remaining_seconds,
    ensures
        spec_tick_n(s, n) == (TimerMachine {
            remaining_seconds: (s.remaining_seconds - n) as u32,
            ..s
        }),
    decreases n,
{
    if n > 0 {
        lemma_running_countdown(s, (n - 1) as nat);
    }
}

/// A paused timer never counts down: however many ticks reach a state whose
/// running flag is false, the state is unchanged, until some other operation
/// (a toggle) starts the timer again.
pub proof fn lemma_paused_ticks_inert(s: TimerMachine, n: nat)
    requires
        !s.running,
    ensures
        spec_tick_n(s, n) == s,
    decreases n,
{
    if n > 0 {
        lemma_paused_ticks_inert(s, (n - 1) as nat);
    }
}

/// An exhausted work phase routes to a long break exactly when the session
/// count, with the finished session already included, is a multiple of four,
/// and to a short break otherwise; the routing repeats with period four.
pub proof fn lemma_work_routing(work_sessions: u32)
    ensures
        TimerState::Work.spec_next_state(work_sessions) == (if work_sessions % 4 == 0 {
            TimerState::LongBreak
        } else {
            TimerState::ShortBreak
        }),
        work_sessions + 4 <= u32::MAX ==> TimerState::Work.spec_next_state(work_sessions)
            == TimerState::Work.spec_next_state((work_sessions + 4) as u32),
{
}

/// A tick that exhausts a running work countdown credits exactly one session
/// and routes by the credited count: to a long break when the new count is a
/// multiple of four, else to a short break.
pub proof fn lemma_work_exhaustion(s: TimerMachine)
    requires
        s.running,
        s.remaining_seconds == 0,
        s.phase is Work,
        s.completed_work_sessions < u32::MAX,
    ensures
        s.spec_tick() == (TimerMachine {
            phase: TimerState::Work.spec_next_state((s.completed_work_sessions + 1) as u32),
            remaining_seconds: TimerState::Work.spec_next_state(
                (s.completed_work_sessions + 1) as u32,
            ).spec_duration_seconds(),
            running: false,
            completed_work_sessions: (s.completed_work_sessions + 1) as u32,
        }),
{
}

/// An exhausted break, long or short, returns to a full work countdown and
/// leaves the session count alone.
pub proof fn lemma_break_exhaustion(s: TimerMachine)
    requires
        s.running,
        s.remaining_seconds == 0,
        !(s.phase is Work),
    ensures
        s.spec_tick() == (TimerMachine {
            phase: TimerState::Work,
            remaining_seconds: TimerState::Work.spec_duration_seconds(),
            running: false,
            completed_work_sessions: s.completed_work_sessions,
        }),
{
}

/// Resetting is idempotent: resetting twice in a row yields the same state as
/// resetting once.
pub proof fn lemma_reset_idempotent(s: TimerMachine)
    ensures
        s.spec_reset().spec_reset() == s.spec_reset(),
{
}

} // verus!
