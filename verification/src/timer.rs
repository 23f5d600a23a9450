//! The countdown timer mode: counts one fixed target duration down to zero.

use vstd::prelude::*;
use crate::command::Command;
use crate::ui::{mode_alert_count_spec, mode_run_spec, mode_step_spec, CounterUI};

verus! {

/// Timer state: a fixed target duration, elapsed seconds, a running flag,
/// and the edge-trigger flag for the completion alert.
///
/// Well-formed states keep `elapsed` at or below `target`; once the target
/// is reached the display stays at zero remaining and the timer keeps
/// running without advancing further.
#[derive(Clone, Copy, Debug, PartialEq, Eq, Structural)]
pub struct TimerUI {
    /// The countdown's length in seconds, fixed at creation.
    pub target: u64,
    /// Whole seconds accumulated while running since the last reset.
    pub elapsed: u64,
    /// Whether ticks currently advance the count.
    pub running: bool,
    /// Whether the completion alert has already fired this cycle; it is
    /// cleared only by `Reset`, so the alert fires once per cycle.
    pub notified: bool,
}

impl TimerUI {
    /// A fresh countdown toward `target` seconds, already running.
    pub fn new(target: u64) -> (t: TimerUI)
        requires
            target >= 1,
        ensures
            t == (TimerUI { target, elapsed: 0, running: true, notified: false }),
            t.inv(),
    {
        TimerUI { target, elapsed: 0, running: true, notified: false }
    }
}

impl CounterUI for TimerUI {
    /// Well-formedness: the target is positive, elapsed never passes it,
    /// and the alert has fired exactly when the target has been reached.
    open spec fn inv(&self) -> bool {
        &&& self.target >= 1
        &&& self.elapsed <= self.target
        &&& (self.notified <==> self.elapsed == self.target)
    }

    /// While running and short of the target, one tick advances by one
    /// second; reaching the target sets the alert flag. At or past the
    /// target, or while paused, nothing changes.
    open spec fn tick_spec(&self) -> TimerUI {
        if self.running && self.elapsed < self.target {
            TimerUI {
                elapsed: (self.elapsed + 1) as u64,
                notified: self.notified || self.elapsed + 1 == self.target,
                ..*self
            }
        } else {
            *self
        }
    }

    /// The alert fires exactly on the tick that first reaches the target.
    open spec fn tick_alert_spec(&self) -> bool {
        self.running && self.elapsed < self.target && self.elapsed + 1 == self.target
            && !self.notified
    }

    /// `PauseResume` toggles running, `Reset` restarts the cycle (clearing
    /// the alert edge), `Skip` completes the countdown immediately, and
    /// `Quit`/`Noop` change nothing.
    open spec fn apply_spec(&self, command: Command) -> TimerUI {
        match command {
            Command::PauseResume => TimerUI { running: !self.running, ..*self },
            Command::Reset => TimerUI { elapsed: 0, notified: false, ..*self },
            Command::Skip => TimerUI { elapsed: self.target, notified: true, ..*self },
            _ => *self,
        }
    }

    /// Only `Skip` alerts, and only if the completion alert has not fired
    /// yet this cycle.
    open spec fn apply_alert_spec(&self, command: Command) -> bool {
        command == Command::Skip && !self.notified
    }

    /// The display shows remaining seconds, floored at zero: in every
    /// state this equals `max(0, target - elapsed)`, and in well-formed
    /// states exactly `target - elapsed`.
    open spec fn display_spec(&self) -> u64 {
        if self.elapsed <= self.target {
            (self.target - self.elapsed) as u64
        } else {
            0
        }
    }

    fn tick(&mut self) -> bool {
        if self.running && self.elapsed < self.target {
            self.elapsed = self.elapsed + 1;
            if self.elapsed == self.target && !self.notified {
                self.notified = true;
                return true;
            }
            self.notified = self.notified || self.elapsed == self.target;
        }
        false
    }

    fn update(&mut self, command: Command) -> bool {
        match command {
            Command::PauseResume => {
                self.running = !self.running;
                false
            },
            Command::Reset => {
                self.elapsed = 0;
                self.notified = false;
                false
            },
            Command::Skip => {
                let fresh = !self.notified;
                self.elapsed = self.target;
                self.notified = true;
                fresh
            },
            _ => false,
        }
    }

    fn display_value(&self) -> u64 {
        if self.elapsed <= self.target {
            self.target - self.elapsed
        } else {
            0
        }
    }
}

/// Every tick and every command leads from a well-formed timer state to a
/// well-formed one, so `elapsed <= target` — and with it a display of
/// `max(0, target - elapsed)` that never goes negative — holds in every
/// reachable state.
pub proof fn lemma_timer_step_preserves_inv(t: TimerUI, event: Option<Command>)
    requires
        t.inv(),
    ensures
        mode_step_spec(t, event).inv(),
{
}

/// The single-fire law of the completion alert: over any reset-free
/// sequence of ticks and commands, the alert fires exactly once if the
/// run reaches expiry and never otherwise — in particular, ticks
/// delivered after expiry fire nothing.
pub proof fn lemma_timer_alert_once(t: TimerUI, events: Seq<Option<Command>>)
    requires
        t.inv(),
        forall|i: int| 0 <= i < events.len() ==> events[i] != Some(Command::Reset),
    ensures
        mode_run_spec(t, events).inv(),
        t.notified ==> mode_run_spec(t, events).notified,
        mode_alert_count_spec(t, events) == if !t.notified && mode_run_spec(t, events).notified {
            1nat
        } else {
            0nat
        },
    decreases events.len(),
{
    if events.len() > 0 {
        let next = mode_step_spec(t, events[0]);
        assert forall|i: int| 0 <= i < events.skip(1).len() implies events.skip(1)[i] != Some(
            Command::Reset,
        ) by {
            assert(events.skip(1)[i] == events[i + 1]);
        }
        lemma_timer_alert_once(next, events.skip(1));
    }
}

/// The skip law: on a running, well-formed timer, `Skip` is the same as
/// delivering exactly `target - elapsed` ticks at once — the end state is
/// equal, and the alert fires over those ticks exactly when `Skip` would
/// have fired it.
pub proof fn lemma_timer_skip_is_ticks(t: TimerUI)
    requires
        t.inv(),
        t.running,
    ensures
        mode_run_spec(t, Seq::new((t.target - t.elapsed) as nat, |i: int| None)) == t.apply_spec(
            Command::Skip,
        ),
        mode_alert_count_spec(t, Seq::new((t.target - t.elapsed) as nat, |i: int| None))
            == if t.apply_alert_spec(Command::Skip) {
            1nat
        } else {
            0nat
        },
{
    lemma_timer_ticks_to_expiry(t, (t.target - t.elapsed) as nat);
}

/// Helper for the skip law: `n` straight ticks on a running timer that is
/// `n` short of its target end at expiry, with the alert fired exactly
/// once if it had not fired yet.
proof fn lemma_timer_ticks_to_expiry(t: TimerUI, n: nat)
    requires
        t.inv(),
        t.running,
        n == t.target - t.elapsed,
    ensures
        mode_run_spec(t, Seq::new(n, |i: int| None)) == (TimerUI {
            elapsed: t.target,
            notified: true,
            ..t
        }),
        mode_alert_count_spec(t, Seq::new(n, |i: int| None)) == if !t.notified {
            1nat
        } else {
            0nat
        },
    decreases n,
{
    let ticks = Seq::new(n, |i: int| None::<Command>);
    if n == 0 {
        assert(t == (TimerUI { elapsed: t.target, notified: true, ..t }));
    } else {
        let next = mode_step_spec(t, ticks[0]);
        assert(ticks.skip(1) =~= Seq::new((n - 1) as nat, |i: int| None::<Command>));
        lemma_timer_ticks_to_expiry(next, (n - 1) as nat);
    }
}

/// The pause law for the timer: `PauseResume` toggles the running flag
/// and nothing else, and a tick while paused changes nothing.
pub proof fn lemma_timer_pause(t: TimerUI)
    ensures
        t.apply_spec(Command::PauseResume).running == !t.running,
        t.apply_spec(Command::PauseResume).elapsed == t.elapsed,
        !t.running ==> t.tick_spec() == t,
{
}

} // verus!
