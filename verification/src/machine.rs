//! The timer state machine: current phase, remaining seconds, running flag and
//! completed-work-session count, with the four user operations and the
//! once-per-second tick. Pure logic, no clock and no rendering.

use vstd::prelude::*;

use crate::phase::TimerState;

verus! {

/// A phase-completion event: an exhausted countdown moved the machine from
/// `finished` to `next`.
#[derive(Clone, Copy, Debug, PartialEq, Eq, Structural)]
pub struct PhaseCompletion {
    pub finished: TimerState,
    pub next: TimerState,
}

/// The mutable timer aggregate. The countdown value never exceeds the current
/// phase's full duration (see [`TimerMachine::wf`]), and
/// `completed_work_sessions` grows by exactly one per completed work phase and
/// is never decremented.
#[derive(Clone, Copy, Debug, PartialEq, Eq, Structural)]
pub struct TimerMachine {
    pub phase: TimerState,
    pub remaining_seconds: u32,
    pub running: bool,
    pub completed_work_sessions: u32,
}

impl TimerMachine {
    /// Well-formedness: the countdown never exceeds the current phase's full
    /// duration.
    pub open spec fn wf(self) -> bool {
        self.remaining_seconds <= self.phase.spec_duration_seconds()
    }

    /// The state a freshly mounted widget starts from: a full, paused work
    /// countdown with no completed sessions.
    pub open spec fn spec_new() -> TimerMachine {
        TimerMachine {
            phase: TimerState::Work,
            remaining_seconds: 1500,
            running: false,
            completed_work_sessions: 0,
        }
    }

    pub fn new() -> (machine: TimerMachine)
        ensures
            machine == TimerMachine::spec_new(),
            machine.wf(),
    {
        TimerMachine {
            phase: TimerState::Work,
            remaining_seconds: 1500,
            running: false,
            completed_work_sessions: 0,
        }
    }

    /// What `toggle_running` does: flip the running flag, touch nothing else.
    pub open spec fn spec_toggle_running(self) -> TimerMachine {
        TimerMachine { running: !self.running, ..self }
    }

    /// Flips the running flag. Safe to call at any time; changes nothing else.
    pub fn toggle_running(&mut self)
        ensures
            *final(self) == old(self).spec_toggle_running(),
            old(self).wf() ==> final(self).wf(),
    {
        self.running = !self.running;
    }

    /// What `reset` does: pause, and restore the current phase's full
    /// countdown. Phase and session count are untouched.
    pub open spec fn spec_reset(self) -> TimerMachine {
        TimerMachine {
            running: false,
            remaining_seconds: self.phase.spec_duration_seconds(),
            ..self
        }
    }

    /// Pauses the timer and restores the current phase's full countdown,
    /// leaving the phase and the session count as they are.
    pub fn reset(&mut self)
        ensures
            *final(self) == old(self).spec_reset(),
            final(self).wf(),
    {
        self.running = false;
        self.remaining_seconds = self.phase.duration_seconds();
    }

    /// What `switch_mode` does: pause, adopt the target phase, and start its
    /// full countdown. The session count is untouched.
    pub open spec fn spec_switch_mode(self, target: TimerState) -> TimerMachine {
        TimerMachine {
            running: false,
            phase: target,
            remaining_seconds: target.spec_duration_seconds(),
            ..self
        }
    }

    /// Pauses the timer and moves it to `target` with that phase's full
    /// countdown. Always succeeds; selecting the already-active phase simply
    /// resets its countdown.
    pub fn switch_mode(&mut self, target: TimerState)
        ensures
            *final(self) == old(self).spec_switch_mode(target),
            final(self).wf(),
            final(self).remaining_seconds == target.spec_duration_minutes() * 60,
            !final(self).running,
    {
        self.running = false;
        self.phase = target;
        self.remaining_seconds = target.duration_seconds();
    }

    /// Whether a tick of this state exhausts the countdown and forces a phase
    /// transition.
    pub open spec fn spec_tick_completes(self) -> bool {
        self.running && self.remaining_seconds == 0
    }

    /// What `tick` does. A paused machine is left untouched (the driver never
    /// fires the clock while idle). While seconds remain, one is taken off and
    /// nothing else changes. On an exhausted countdown the machine pauses,
    /// credits the session if a work phase just finished, and begins the next
    /// phase's full countdown without auto-continuing.
    pub open spec fn spec_tick(self) -> TimerMachine {
        if !self.running {
            self
        } else if self.remaining_seconds > 0 {
            TimerMachine { remaining_seconds: (self.remaining_seconds - 1) as u32, ..self }
        } else {
            let completed = if self.phase is Work {
                (self.completed_work_sessions + 1) as u32
            } else {
                self.completed_work_sessions
            };
            let next = self.phase.spec_next_state(completed);
            TimerMachine {
                phase: next,
                remaining_seconds: next.spec_duration_seconds(),
                running: false,
                completed_work_sessions: completed,
            }
        }
    }

    /// One elapsed second of countdown progress. Returns the phase-completion
    /// event when this tick exhausted the countdown, and `None` otherwise.
    pub fn tick(&mut self) -> (completion: Option<PhaseCompletion>)
        requires
            old(self).spec_tick_completes() && old(self).phase is Work
                ==> old(self).completed_work_sessions < u32::MAX,
        ensures
            *final(self) == old(self).spec_tick(),
            old(self).wf() ==> final(self).wf(),
            completion matches Some(c) ==> c == (PhaseCompletion {
                finished: old(self).phase,
                next: final(self).phase,
            }),
            completion is Some <==> old(self).spec_tick_completes(),
            old(self).spec_tick_completes() && old(self).phase is Work
                ==> final(self).completed_work_sessions == old(self).completed_work_sessions + 1,
            old(self).spec_tick_completes() && !(old(self).phase is Work)
                ==> final(self).completed_work_sessions == old(self).completed_work_sessions,
    {
        if !self.running {
            return None;
        }
        if self.remaining_seconds > 0 {
            self.remaining_seconds = self.remaining_seconds - 1;
            return None;
        }
        self.running = false;
        let finished = self.phase;
        if matches!(self.phase, TimerState::Work) {
            self.completed_work_sessions = self.completed_work_sessions + 1;
        }
        let next = finished.next_state(self.completed_work_sessions);
        self.phase = next;
        self.remaining_seconds = next.duration_seconds();
        Some(PhaseCompletion { finished, next })
    }
}

} // verus!
