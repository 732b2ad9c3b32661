//! The timer driver: translates the machine's running flag into an armed or
//! idle repeating clock, feeds each clock firing into the machine's tick, and
//! derives the notification message announced on each phase completion.
//!
//! The driver here is the decision layer alone. The surrounding application
//! owns the real clock: it keeps exactly one clock registered precisely while
//! `armed` is true, fires [`TimerDriver::on_clock_fire`] once per elapsed
//! second, and hands each returned message to its notification sink.

use vstd::prelude::*;

use crate::machine::PhaseCompletion;
use crate::machine::TimerMachine;
use crate::phase::TimerState;

verus! {

/// The message announced when an exhausted countdown moves the timer from
/// `finished` to `next`.
pub open spec fn spec_completion_message(finished: TimerState, next: TimerState) -> Seq<char> {
    finished.spec_display_name() + " finished! Time for "@ + next.spec_display_name()
}

/// Builds the phase-completion announcement, such as
/// `"Work Time finished! Time for Short Break"`.
pub fn completion_message(completion: &PhaseCompletion) -> (message: String)
    ensures
        message@ == spec_completion_message(completion.finished, completion.next),
{
    let mut message = String::from_str(completion.finished.display_name());
    message.append(" finished! Time for ");
    message.append(completion.next.display_name());
    message
}

/// The driver-level state: the timer machine together with whether a repeating
/// one-second clock is currently registered for it.
#[derive(Clone, Copy, Debug, PartialEq, Eq, Structural)]
pub struct TimerDriver {
    pub machine: TimerMachine,
    pub armed: bool,
}

impl TimerDriver {
    /// Well-formedness: the clock is armed exactly while the machine runs, and
    /// the machine itself is well formed.
    pub open spec fn wf(self) -> bool {
        &&& self.armed == self.machine.running
        &&& self.machine.wf()
    }

    /// A freshly mounted driver: the initial machine, no clock registered.
    pub fn new() -> (driver: TimerDriver)
        ensures
            driver.machine == TimerMachine::spec_new(),
            !driver.armed,
            driver.wf(),
    {
        TimerDriver { machine: TimerMachine::new(), armed: false }
    }

    /// Relays a start/pause press: the machine's running flag flips, and the
    /// clock is armed exactly when the machine now runs.
    pub fn on_toggle(&mut self)
        requires
            old(self).wf(),
        ensures
            final(self).wf(),
            final(self).machine == old(self).machine.spec_toggle_running(),
            final(self).armed == !old(self).armed,
    {
        self.machine.toggle_running();
        self.armed = self.machine.running;
    }

    /// Relays a reset press: the machine pauses with a full countdown, and the
    /// clock is disarmed.
    pub fn on_reset(&mut self)
        requires
            old(self).wf(),
        ensures
            final(self).wf(),
            final(self).machine == old(self).machine.spec_reset(),
            !final(self).armed,
    {
        self.machine.reset();
        self.armed = false;
    }

    /// Relays a mode selection: the machine pauses on `target` with its full
    /// countdown, and the clock is disarmed.
    pub fn on_switch_mode(&mut self, target: TimerState)
        requires
            old(self).wf(),
        ensures
            final(self).wf(),
            final(self).machine == old(self).machine.spec_switch_mode(target),
            !final(self).armed,
    {
        self.machine.switch_mode(target);
        self.armed = false;
    }

    /// One firing of the armed clock: ticks the machine, disarms the clock if
    /// the tick paused the machine, and returns the notification message
    /// exactly when this tick completed a phase.
    pub fn on_clock_fire(&mut self) -> (notification: Option<String>)
        requires
            old(self).wf(),
            old(self).machine.spec_tick_completes() && old(self).machine.phase is Work
                ==> old(self).machine.completed_work_sessions < u32::MAX,
        ensures
            final(self).wf(),
            final(self).machine == old(self).machine.spec_tick(),
            notification is Some <==> old(self).machine.spec_tick_completes(),
            notification matches Some(m) ==> m@ == spec_completion_message(
                old(self).machine.phase,
                final(self).machine.phase,
            ),
    {
        let completion = self.machine.tick();
        self.armed = self.machine.running;
        match completion {
            Some(c) => Some(completion_message(&c)),
            None => None,
        }
    }
}

} // verus!
