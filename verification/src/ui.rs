//! The counter abstraction and the decision logic of the event loop.
//!
//! The interactive loop repeatedly renders the active mode, blocks up to one
//! second for a key, and either applies the decoded command or — on a
//! timeout — delivers a tick. The loop's I/O lives outside; the decision it
//! makes at each iteration is [`run_step`], and [`run_script`] plays a whole
//! recorded sequence of wait outcomes through a mode.

use vstd::prelude::*;
use crate::command::{Command, Key};

verus! {

/// A counter mode the event loop can drive: it can advance by one second,
/// react to a command, and report the value to display.
///
/// Each exec method is pinned to a spec function of the implementing type,
/// so the loop's behaviour over any mode is stated exactly. A method's
/// returned flag is true when the step crossed a completion boundary and
/// the alerter should fire.
pub trait CounterUI: Sized {
    /// Well-formedness of the mode's state.
    spec fn inv(&self) -> bool;

    /// The state one tick leads to.
    spec fn tick_spec(&self) -> Self;

    /// Whether one tick fires the alert.
    spec fn tick_alert_spec(&self) -> bool;

    /// The state one command leads to.
    spec fn apply_spec(&self, command: Command) -> Self;

    /// Whether one command fires the alert.
    spec fn apply_alert_spec(&self, command: Command) -> bool;

    /// The seconds value the display shows in this state.
    spec fn display_spec(&self) -> u64;

    /// Advance by one second of wall time.
    fn tick(&mut self) -> (alert: bool)
        ensures
            *final(self) == old(self).tick_spec(),
            alert == old(self).tick_alert_spec(),
            old(self).inv() ==> final(self).inv(),
    ;

    /// React to one command.
    fn update(&mut self, command: Command) -> (alert: bool)
        ensures
            *final(self) == old(self).apply_spec(command),
            alert == old(self).apply_alert_spec(command),
            old(self).inv() ==> final(self).inv(),
    ;

    /// The value to display.
    fn display_value(&self) -> (v: u64)
        ensures
            v == self.display_spec(),
    ;
}

/// Whether one outcome of the bounded input wait — `None` when the second
/// passed with no input, `Some(key)` when a key arrived — decodes to the
/// quit command.
pub open spec fn is_quit(event: Option<Key>) -> bool {
    match event {
        Some(key) => Command::decode_spec(key) == Command::Quit,
        None => false,
    }
}

/// The state one loop iteration leads to: a timeout ticks the mode, a key
/// is decoded and applied, and a quit key leaves the mode untouched.
pub open spec fn step_spec<M: CounterUI>(mode: M, event: Option<Key>) -> M {
    match event {
        None => mode.tick_spec(),
        Some(key) => {
            if Command::decode_spec(key) == Command::Quit {
                mode
            } else {
                mode.apply_spec(Command::decode_spec(key))
            }
        },
    }
}

/// Whether one loop iteration fires the alert.
pub open spec fn step_alert_spec<M: CounterUI>(mode: M, event: Option<Key>) -> bool {
    match event {
        None => mode.tick_alert_spec(),
        Some(key) => {
            if Command::decode_spec(key) == Command::Quit {
                false
            } else {
                mode.apply_alert_spec(Command::decode_spec(key))
            }
        },
    }
}

/// What one loop iteration decided: whether to leave the loop, and whether
/// to fire the alerter.
#[derive(Clone, Copy, Debug, PartialEq, Eq, Structural)]
pub struct StepResult {
    /// True exactly when the event decoded to `Quit`; the loop then ends
    /// with the mode unchanged.
    pub quit: bool,
    /// True exactly when the step crossed a completion boundary.
    pub alert: bool,
}

/// One iteration of the event loop, after the render and the bounded wait:
/// decide from the wait's outcome what the mode's next state is.
pub fn run_step<M: CounterUI>(mode: &mut M, event: Option<Key>) -> (r: StepResult)
    ensures
        *final(mode) == step_spec(*old(mode), event),
        r.alert == step_alert_spec(*old(mode), event),
        r.quit == is_quit(event),
        old(mode).inv() ==> final(mode).inv(),
{
    match event {
        None => {
            let alert = mode.tick();
            StepResult { quit: false, alert }
        },
        Some(key) => {
            let command = Command::decode(key);
            if command == Command::Quit {
                StepResult { quit: true, alert: false }
            } else {
                let alert = mode.update(command);
                StepResult { quit: false, alert }
            }
        },
    }
}

/// The run of the loop over a sequence of wait outcomes: the final mode
/// state, the number of iterations entered (one render each), the number
/// of alerts fired, and whether the run ended on a quit key.
///
/// An iteration that sees a quit key ends the run at once: the mode is
/// left as it is and later events are never looked at.
pub open spec fn run_spec<M: CounterUI>(mode: M, events: Seq<Option<Key>>) -> (M, nat, nat, bool)
    decreases events.len(),
{
    if events.len() == 0 {
        (mode, 0, 0, false)
    } else if is_quit(events[0]) {
        (mode, 1, 0, true)
    } else {
        let fired: nat = if step_alert_spec(mode, events[0]) { 1 } else { 0 };
        let rest = run_spec(step_spec(mode, events[0]), events.skip(1));
        (rest.0, rest.1 + 1, rest.2 + fired, rest.3)
    }
}

/// The state one mode-level event leads to: `None` is a tick, `Some` a
/// command handed to the mode. This is the loop's effect on the mode with
/// decoding and quitting already dealt with; the laws about whole runs of
/// a mode are stated over it.
pub open spec fn mode_step_spec<M: CounterUI>(mode: M, event: Option<Command>) -> M {
    match event {
        None => mode.tick_spec(),
        Some(command) => mode.apply_spec(command),
    }
}

/// Whether one mode-level event fires the alert.
pub open spec fn mode_step_alert_spec<M: CounterUI>(mode: M, event: Option<Command>) -> bool {
    match event {
        None => mode.tick_alert_spec(),
        Some(command) => mode.apply_alert_spec(command),
    }
}

/// The state a whole sequence of mode-level events leads to, first event
/// first.
pub open spec fn mode_run_spec<M: CounterUI>(mode: M, events: Seq<Option<Command>>) -> M
    decreases events.len(),
{
    if events.len() == 0 {
        mode
    } else {
        mode_run_spec(mode_step_spec(mode, events[0]), events.skip(1))
    }
}

/// How many alerts a whole sequence of mode-level events fires.
pub open spec fn mode_alert_count_spec<M: CounterUI>(mode: M, events: Seq<Option<Command>>) -> nat
    decreases events.len(),
{
    if events.len() == 0 {
        0
    } else {
        (if mode_step_alert_spec(mode, events[0]) {
            1nat
        } else {
            0nat
        }) + mode_alert_count_spec(mode_step_spec(mode, events[0]), events.skip(1))
    }
}

/// What a finished run of the loop reports.
#[derive(Clone, Copy, Debug, PartialEq, Eq, Structural)]
pub struct RunReport {
    /// Iterations entered, each of which rendered one frame.
    pub frames: usize,
    /// Alerts fired over the run.
    pub alerts: usize,
    /// Whether the run ended on a quit key rather than by exhausting the
    /// events.
    pub quit: bool,
}

/// Drive a mode through a recorded sequence of wait outcomes, as the live
/// loop would: stop at the first quit key, tick on every timeout, apply
/// every other decoded command.
pub fn run_script<M: CounterUI>(mode: &mut M, events: &Vec<Option<Key>>) -> (r: RunReport)
    ensures
        *final(mode) == run_spec(*old(mode), events@).0,
        r.frames == run_spec(*old(mode), events@).1,
        r.alerts == run_spec(*old(mode), events@).2,
        r.quit == run_spec(*old(mode), events@).3,
        old(mode).inv() ==> final(mode).inv(),
{
    let ghost whole = run_spec(*old(mode), events@);
    proof {
        assert(events@.skip(0) =~= events@);
    }
    let mut i: usize = 0;
    let mut alerts: usize = 0;
    while i < events.len()
        invariant
            i <= events.len(),
            alerts <= i,
            whole == run_spec(*old(mode), events@),
            run_spec(*mode, events@.skip(i as int)).0 == whole.0,
            run_spec(*mode, events@.skip(i as int)).1 + i == whole.1,
            run_spec(*mode, events@.skip(i as int)).2 + alerts == whole.2,
            run_spec(*mode, events@.skip(i as int)).3 == whole.3,
            old(mode).inv() ==> mode.inv(),
        decreases events.len() - i,
    {
        let event = events[i];
        proof {
            assert(events@.skip(i as int).len() > 0);
            assert(events@.skip(i as int)[0] == events@[i as int]);
            assert(events@.skip(i as int).skip(1) =~= events@.skip(i as int + 1));
        }
        let step = run_step(mode, event);
        if step.quit {
            return RunReport { frames: i + 1, alerts, quit: true };
        }
        if step.alert {
            alerts = alerts + 1;
        }
        i = i + 1;
    }
    proof {
        assert(events@.skip(i as int).len() == 0);
    }
    RunReport { frames: i, alerts, quit: false }
}

} // verus!
