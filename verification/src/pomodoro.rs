//! The pomodoro mode: alternating work and break phases of fixed lengths.

use vstd::prelude::*;
use crate::command::Command;
use crate::ui::{mode_alert_count_spec, mode_run_spec, mode_step_spec, CounterUI};

verus! {

/// Which of the two alternating intervals is active.
#[derive(Clone, Copy, Debug, PartialEq, Eq, Structural)]
pub enum Phase {
    /// A work interval.
    Work,
    /// A break interval.
    Break,
}

/// The two phase lengths, in seconds, fixed at creation.
#[derive(Clone, Copy, Debug, PartialEq, Eq, Structural)]
pub struct PomodoroConfig {
    /// Length of a work phase.
    pub work_time: u64,
    /// Length of a break phase.
    pub break_time: u64,
}

impl PomodoroConfig {
    /// Both phase lengths are positive.
    pub open spec fn inv(self) -> bool {
        self.work_time >= 1 && self.break_time >= 1
    }

    /// The classic preset: 25 minutes of work, 5 minutes of break.
    pub fn short() -> (c: PomodoroConfig)
        ensures
            c == (PomodoroConfig { work_time: 1500, break_time: 300 }),
            c.inv(),
    {
        PomodoroConfig { work_time: 1500, break_time: 300 }
    }

    /// The long preset: 50 minutes of work, 10 minutes of break.
    pub fn long() -> (c: PomodoroConfig)
        ensures
            c == (PomodoroConfig { work_time: 3000, break_time: 600 }),
            c.inv(),
    {
        PomodoroConfig { work_time: 3000, break_time: 600 }
    }
}

/// Pomodoro state: the fixed configuration, the active phase, elapsed
/// seconds within that phase, and a running flag.
///
/// Well-formed states keep elapsed-within-phase strictly below the active
/// phase's length: reaching the length is what switches phases, resetting
/// the count to zero, so the count is never observed at or past the
/// boundary.
#[derive(Clone, Copy, Debug, PartialEq, Eq, Structural)]
pub struct PomodoroUI {
    /// The two phase lengths.
    pub config: PomodoroConfig,
    /// The active phase.
    pub phase: Phase,
    /// Whole seconds accumulated while running within the active phase.
    pub elapsed: u64,
    /// Whether ticks currently advance the count.
    pub running: bool,
}

impl PomodoroUI {
    /// The length of the active phase.
    pub open spec fn duration_spec(self) -> u64 {
        match self.phase {
            Phase::Work => self.config.work_time,
            Phase::Break => self.config.break_time,
        }
    }

    /// The other phase.
    pub open spec fn other_phase(self) -> Phase {
        match self.phase {
            Phase::Work => Phase::Break,
            Phase::Break => Phase::Work,
        }
    }

    /// The state after a phase transition: the other phase, count cleared,
    /// running flag preserved.
    pub open spec fn transition_spec(self) -> PomodoroUI {
        PomodoroUI { phase: self.other_phase(), elapsed: 0, ..self }
    }

    /// A fresh cycle under `config`: work phase, zero elapsed, running.
    pub fn new(config: PomodoroConfig) -> (p: PomodoroUI)
        requires
            config.inv(),
        ensures
            p == (PomodoroUI { config, phase: Phase::Work, elapsed: 0, running: true }),
            p.inv(),
    {
        PomodoroUI { config, phase: Phase::Work, elapsed: 0, running: true }
    }

    /// The length of the active phase, in seconds.
    pub fn duration(&self) -> (d: u64)
        ensures
            d == self.duration_spec(),
    {
        match self.phase {
            Phase::Work => self.config.work_time,
            Phase::Break => self.config.break_time,
        }
    }
}

impl CounterUI for PomodoroUI {
    /// Well-formedness: positive phase lengths, and elapsed strictly below
    /// the active phase's length.
    open spec fn inv(&self) -> bool {
        self.config.inv() && self.elapsed < self.duration_spec()
    }

    /// While running, one tick advances within the phase; when the count
    /// would reach the phase length, the other phase begins with the count
    /// cleared. While paused, nothing changes.
    open spec fn tick_spec(&self) -> PomodoroUI {
        if self.running {
            if self.elapsed + 1 >= self.duration_spec() {
                self.transition_spec()
            } else {
                PomodoroUI { elapsed: (self.elapsed + 1) as u64, ..*self }
            }
        } else {
            *self
        }
    }

    /// The alert fires exactly on the tick that crosses a phase boundary.
    open spec fn tick_alert_spec(&self) -> bool {
        self.running && self.elapsed + 1 >= self.duration_spec()
    }

    /// `PauseResume` toggles running, `Reset` returns to a fresh work
    /// phase (running flag unchanged), `Skip` completes the active phase
    /// immediately, and `Quit`/`Noop` change nothing.
    open spec fn apply_spec(&self, command: Command) -> PomodoroUI {
        match command {
            Command::PauseResume => PomodoroUI { running: !self.running, ..*self },
            Command::Reset => PomodoroUI { phase: Phase::Work, elapsed: 0, ..*self },
            Command::Skip => self.transition_spec(),
            _ => *self,
        }
    }

    /// A command alerts exactly on the forced phase transition of `Skip`.
    open spec fn apply_alert_spec(&self, command: Command) -> bool {
        command == Command::Skip
    }

    /// The display shows remaining seconds in the active phase, floored
    /// at zero.
    open spec fn display_spec(&self) -> u64 {
        if self.elapsed <= self.duration_spec() {
            (self.duration_spec() - self.elapsed) as u64
        } else {
            0
        }
    }

    fn tick(&mut self) -> bool {
        if self.running {
            let d = self.duration();
            if self.elapsed >= u64::MAX || self.elapsed + 1 >= d {
                self.phase = match self.phase {
                    Phase::Work => Phase::Break,
                    Phase::Break => Phase::Work,
                };
                self.elapsed = 0;
                return true;
            }
            self.elapsed = self.elapsed + 1;
        }
        false
    }

    fn update(&mut self, command: Command) -> bool {
        match command {
            Command::PauseResume => {
                self.running = !self.running;
                false
            },
            Command::Reset => {
                self.phase = Phase::Work;
                self.elapsed = 0;
                false
            },
            Command::Skip => {
                self.phase = match self.phase {
                    Phase::Work => Phase::Break,
                    Phase::Break => Phase::Work,
                };
                self.elapsed = 0;
                true
            },
            _ => false,
        }
    }

    fn display_value(&self) -> u64 {
        let d = self.duration();
        if self.elapsed <= d {
            d - self.elapsed
        } else {
            0
        }
    }
}

/// Every tick and every command leads from a well-formed pomodoro state
/// to a well-formed one: elapsed-within-phase never reaches the active
/// phase's length in any observable state.
pub proof fn lemma_pomodoro_step_preserves_inv(p: PomodoroUI, event: Option<Command>)
    requires
        p.inv(),
    ensures
        mode_step_spec(p, event).inv(),
{
}

/// The invariant over whole runs: from a well-formed state, any sequence
/// of ticks and commands leaves elapsed-within-phase strictly below the
/// active phase's configured length.
pub proof fn lemma_pomodoro_run_preserves_inv(p: PomodoroUI, events: Seq<Option<Command>>)
    requires
        p.inv(),
    ensures
        mode_run_spec(p, events).inv(),
    decreases events.len(),
{
    if events.len() > 0 {
        lemma_pomodoro_run_preserves_inv(mode_step_spec(p, events[0]), events.skip(1));
    }
}

/// How many of the events, played from `p`, change the active phase.
pub open spec fn phase_change_count(p: PomodoroUI, events: Seq<Option<Command>>) -> nat
    decreases events.len(),
{
    if events.len() == 0 {
        0
    } else {
        (if mode_step_spec(p, events[0]).phase != p.phase {
            1nat
        } else {
            0nat
        }) + phase_change_count(mode_step_spec(p, events[0]), events.skip(1))
    }
}

/// The alert law of the pomodoro: over any reset-free sequence of ticks
/// and commands, the number of alerts fired equals the number of phase
/// transitions — each transition fires exactly one alert.
pub proof fn lemma_pomodoro_alert_per_transition(p: PomodoroUI, events: Seq<Option<Command>>)
    requires
        p.inv(),
        forall|i: int| 0 <= i < events.len() ==> events[i] != Some(Command::Reset),
    ensures
        mode_alert_count_spec(p, events) == phase_change_count(p, events),
    decreases events.len(),
{
    if events.len() > 0 {
        let next = mode_step_spec(p, events[0]);
        assert forall|i: int| 0 <= i < events.skip(1).len() implies events.skip(1)[i] != Some(
            Command::Reset,
        ) by {
            assert(events.skip(1)[i] == events[i + 1]);
        }
        lemma_pomodoro_step_preserves_inv(p, events[0]);
        lemma_pomodoro_alert_per_transition(next, events.skip(1));
    }
}

/// The alternation law: phases strictly alternate, so after any sequence
/// of ticks and commands the active phase is the starting one exactly
/// when the number of phase changes along the way is even. Starting from
/// a fresh or reset state, whose phase is `Work`, the phases read
/// `Work, Break, Work, Break, ...` in order of transition.
pub proof fn lemma_pomodoro_alternates(p: PomodoroUI, events: Seq<Option<Command>>)
    ensures
        mode_run_spec(p, events).phase == if phase_change_count(p, events) % 2 == 0 {
            p.phase
        } else {
            p.other_phase()
        },
    decreases events.len(),
{
    if events.len() > 0 {
        lemma_pomodoro_alternates(mode_step_spec(p, events[0]), events.skip(1));
    }
}

/// The pause law for the pomodoro: `PauseResume` toggles the running flag
/// and nothing else, and a tick while paused changes nothing.
pub proof fn lemma_pomodoro_pause(p: PomodoroUI)
    ensures
        p.apply_spec(Command::PauseResume).running == !p.running,
        p.apply_spec(Command::PauseResume).elapsed == p.elapsed,
        p.apply_spec(Command::PauseResume).phase == p.phase,
        !p.running ==> p.tick_spec() == p,
{
}

} // verus!
