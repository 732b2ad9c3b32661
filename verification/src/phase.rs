//! The three timer phases and the rules attached to each: its fixed duration,
//! its display label, its glyph, and which phase follows it when its countdown
//! runs out.

use vstd::prelude::*;

verus! {

/// One phase of the Pomodoro cycle: a named interval with a fixed duration.
#[derive(Clone, Copy, Debug, PartialEq, Eq, Structural)]
pub enum TimerState {
    Work,
    ShortBreak,
    LongBreak,
}

impl TimerState {
    /// Fixed duration of this phase, in whole minutes.
    pub open spec fn spec_duration_minutes(self) -> u32 {
        match self {
            TimerState::Work => 25,
            TimerState::ShortBreak => 5,
            TimerState::LongBreak => 15,
        }
    }

    /// Full countdown value of this phase, in seconds.
    pub open spec fn spec_duration_seconds(self) -> u32 {
        (self.spec_duration_minutes() * 60) as u32
    }

    pub fn duration_minutes(&self) -> (m: u32)
        ensures
            m == self.spec_duration_minutes(),
    {
        match self {
            TimerState::Work => 25,
            TimerState::ShortBreak => 5,
            TimerState::LongBreak => 15,
        }
    }

    /// Seconds in this phase's full countdown: 1500 for work, 300 for a short
    /// break, 900 for a long break.
    pub fn duration_seconds(&self) -> (s: u32)
        ensures
            s == self.spec_duration_seconds(),
    {
        self.duration_minutes() * 60
    }

    /// The phase that follows an exhausted countdown of this phase. Breaks
    /// always return to work; an exhausted work phase routes to a long break
    /// after every fourth completed work session, and to a short break
    /// otherwise. `work_sessions` is the session count with the session just
    /// finished already included.
    pub open spec fn spec_next_state(self, work_sessions: u32) -> TimerState {
        match self {
            TimerState::Work => {
                if work_sessions % 4 == 0 {
                    TimerState::LongBreak
                } else {
                    TimerState::ShortBreak
                }
            },
            TimerState::ShortBreak | TimerState::LongBreak => TimerState::Work,
        }
    }

    pub fn next_state(&self, work_sessions: u32) -> (n: TimerState)
        ensures
            n == self.spec_next_state(work_sessions),
    {
        match self {
            TimerState::Work => {
                if work_sessions % 4 == 0 {
                    TimerState::LongBreak
                } else {
                    TimerState::ShortBreak
                }
            },
            TimerState::ShortBreak | TimerState::LongBreak => TimerState::Work,
        }
    }

    /// Human-readable label of this phase.
    pub open spec fn spec_display_name(self) -> Seq<char> {
        match self {
            TimerState::Work => "Work Time"@,
            TimerState::ShortBreak => "Short Break"@,
            TimerState::LongBreak => "Long Break"@,
        }
    }

    /// Glyph shown beside this phase's label.
    pub open spec fn spec_emoji(self) -> Seq<char> {
        match self {
            TimerState::Work => "🍅"@,
            TimerState::ShortBreak => "☕"@,
            TimerState::LongBreak => "🛌"@,
        }
    }

    pub fn emoji(&self) -> (glyph: &'static str)
        ensures
            glyph@ == self.spec_emoji(),
    {
        match self {
            TimerState::Work => "🍅",
            TimerState::ShortBreak => "☕",
            TimerState::LongBreak => "🛌",
        }
    }

    pub fn display_name(&self) -> (name: &'static str)
        ensures
            name@ == self.spec_display_name(),
    {
        match self {
            TimerState::Work => "Work Time",
            TimerState::ShortBreak => "Short Break",
            TimerState::LongBreak => "Long Break",
        }
    }
}

} // verus!
