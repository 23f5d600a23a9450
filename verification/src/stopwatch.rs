//! The stopwatch mode: a count of elapsed seconds that grows while running.

use vstd::prelude::*;
use crate::command::Command;
use crate::ui::{mode_run_spec, mode_step_spec, CounterUI};

verus! {

/// Stopwatch state: elapsed seconds and a running flag.
///
/// Elapsed time never decreases except through `Reset`; it is frozen while
/// paused. The count saturates at `u64::MAX` instead of wrapping.
#[derive(Clone, Copy, Debug, PartialEq, Eq, Structural)]
pub struct StopwatchUI {
    /// Whole seconds accumulated while running since the last reset.
    pub elapsed: u64,
    /// Whether ticks currently advance the count.
    pub running: bool,
}

impl StopwatchUI {
    /// A fresh stopwatch: zero elapsed, already counting.
    pub fn new() -> (s: StopwatchUI)
        ensures
            s == (StopwatchUI { elapsed: 0, running: true }),
    {
        StopwatchUI { elapsed: 0, running: true }
    }
}

impl Default for StopwatchUI {
    /// Same state as [`StopwatchUI::new`].
    fn default() -> (s: StopwatchUI)
        ensures
            s == (StopwatchUI { elapsed: 0, running: true }),
    {
        StopwatchUI { elapsed: 0, running: true }
    }
}

impl CounterUI for StopwatchUI {
    /// Every stopwatch state is well formed.
    open spec fn inv(&self) -> bool {
        true
    }

    /// One tick advances by one second while running, saturating at
    /// `u64::MAX`, and does nothing while paused.
    open spec fn tick_spec(&self) -> StopwatchUI {
        if self.running && self.elapsed < u64::MAX {
            StopwatchUI { elapsed: (self.elapsed + 1) as u64, ..*self }
        } else {
            *self
        }
    }

    /// A stopwatch never alerts.
    open spec fn tick_alert_spec(&self) -> bool {
        false
    }

    /// `PauseResume` toggles the running flag, `Reset` clears the count,
    /// `Skip` is an explicit no-op (a stopwatch has no phases), and
    /// `Quit`/`Noop` change nothing.
    open spec fn apply_spec(&self, command: Command) -> StopwatchUI {
        match command {
            Command::PauseResume => StopwatchUI { running: !self.running, ..*self },
            Command::Reset => StopwatchUI { elapsed: 0, ..*self },
            _ => *self,
        }
    }

    /// No command alerts on a stopwatch.
    open spec fn apply_alert_spec(&self, command: Command) -> bool {
        false
    }

    /// The display shows elapsed seconds, counting up without bound.
    open spec fn display_spec(&self) -> u64 {
        self.elapsed
    }

    fn tick(&mut self) -> bool {
        if self.running && self.elapsed < u64::MAX {
            self.elapsed = self.elapsed + 1;
        }
        false
    }

    fn update(&mut self, command: Command) -> bool {
        match command {
            Command::PauseResume => {
                self.running = !self.running;
            },
            Command::Reset => {
                self.elapsed = 0;
            },
            _ => {},
        }
        false
    }

    fn display_value(&self) -> u64 {
        self.elapsed
    }
}

/// How many of the events, played from `s`, are ticks delivered while the
/// running flag was set.
pub open spec fn ticks_while_running(s: StopwatchUI, events: Seq<Option<Command>>) -> nat
    decreases events.len(),
{
    if events.len() == 0 {
        0
    } else {
        (if events[0] is None && s.running {
            1nat
        } else {
            0nat
        }) + ticks_while_running(mode_step_spec(s, events[0]), events.skip(1))
    }
}

/// Over any reset-free sequence of ticks and commands, the elapsed count
/// grows by exactly the number of ticks delivered while running.
pub proof fn lemma_stopwatch_elapsed_adds(s: StopwatchUI, events: Seq<Option<Command>>)
    requires
        s.elapsed + events.len() <= u64::MAX,
        forall|i: int| 0 <= i < events.len() ==> events[i] != Some(Command::Reset),
    ensures
        mode_run_spec(s, events).elapsed == s.elapsed + ticks_while_running(s, events),
    decreases events.len(),
{
    if events.len() > 0 {
        let next = mode_step_spec(s, events[0]);
        assert forall|i: int| 0 <= i < events.skip(1).len() implies events.skip(1)[i] != Some(
            Command::Reset,
        ) by {
            assert(events.skip(1)[i] == events[i + 1]);
        }
        lemma_stopwatch_elapsed_adds(next, events.skip(1));
    }
}

/// The law of the stopwatch count: from a just-reset state, over any
/// sequence of ticks and commands that contains no further reset, the
/// elapsed count equals the number of ticks delivered while the running
/// flag was set.
pub proof fn lemma_stopwatch_counts_ticks(s: StopwatchUI, events: Seq<Option<Command>>)
    requires
        s.elapsed == 0,
        events.len() <= u64::MAX,
        forall|i: int| 0 <= i < events.len() ==> events[i] != Some(Command::Reset),
    ensures
        mode_run_spec(s, events).elapsed == ticks_while_running(s, events),
{
    lemma_stopwatch_elapsed_adds(s, events);
}

/// The pause law for the stopwatch: `PauseResume` toggles the running
/// flag and nothing else, and a tick while paused changes nothing.
pub proof fn lemma_stopwatch_pause(s: StopwatchUI)
    ensures
        s.apply_spec(Command::PauseResume).running == !s.running,
        s.apply_spec(Command::PauseResume).elapsed == s.elapsed,
        !s.running ==> s.tick_spec() == s,
{
}

} // verus!
