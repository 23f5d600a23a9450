use counter::command::{Command, Key};
use counter::pomodoro::{PomodoroConfig, PomodoroUI};
use counter::stopwatch::StopwatchUI;
use counter::timer::TimerUI;
use counter::ui::{run_script, run_step, CounterUI};

#[test]
fn decode_key_bindings() {
    assert_eq!(Command::decode(Key::Char('q')), Command::Quit);
    assert_eq!(Command::decode(Key::Esc), Command::Quit);
    assert_eq!(Command::decode(Key::Char(' ')), Command::PauseResume);
    assert_eq!(Command::decode(Key::Char('p')), Command::PauseResume);
    assert_eq!(Command::decode(Key::Char('r')), Command::Reset);
    assert_eq!(Command::decode(Key::Char('s')), Command::Skip);
}

#[test]
fn decode_is_total() {
    assert_eq!(Command::decode(Key::Char('x')), Command::Noop);
    assert_eq!(Command::decode(Key::Char('Q')), Command::Noop);
    assert_eq!(Command::decode(Key::Other), Command::Noop);
}

#[test]
fn step_timeout_delivers_a_tick() {
    let mut s = StopwatchUI::new();
    let r = run_step(&mut s, None);
    assert!(!r.quit);
    assert!(!r.alert);
    assert_eq!(s.elapsed, 1);
}

#[test]
fn step_key_applies_the_command() {
    let mut s = StopwatchUI::new();
    let r = run_step(&mut s, Some(Key::Char(' ')));
    assert!(!r.quit);
    assert!(!s.running);
    assert_eq!(s.elapsed, 0);
}

#[test]
fn step_unrecognized_key_is_ignored() {
    let mut t = TimerUI::new(9);
    let before = t;
    let r = run_step(&mut t, Some(Key::Char('z')));
    assert!(!r.quit);
    assert!(!r.alert);
    assert_eq!(t, before);
}

#[test]
fn step_quit_leaves_state_untouched() {
    let mut p = PomodoroUI::new(PomodoroConfig {
        work_time: 2,
        break_time: 3,
    });
    p.tick();
    let before = p;
    let r = run_step(&mut p, Some(Key::Char('q')));
    assert!(r.quit);
    assert!(!r.alert);
    assert_eq!(p, before);
}

#[test]
fn script_quit_stops_the_run() {
    // A quit key ends the run at once, whatever comes after: later events
    // are never delivered and nothing more is rendered.
    let mut s = StopwatchUI::new();
    let events = vec![None, None, Some(Key::Char('q')), None, None, None];
    let report = run_script(&mut s, &events);
    assert!(report.quit);
    assert_eq!(report.frames, 3);
    assert_eq!(report.alerts, 0);
    assert_eq!(s.elapsed, 2);
}

#[test]
fn script_escape_also_quits() {
    let mut t = TimerUI::new(4);
    let events = vec![Some(Key::Esc), None];
    let report = run_script(&mut t, &events);
    assert!(report.quit);
    assert_eq!(report.frames, 1);
    assert_eq!(t.elapsed, 0);
}

#[test]
fn script_two_timeouts_are_two_ticks() {
    // Two one-second waits that both time out deliver exactly two ticks
    // and no command.
    let mut s = StopwatchUI::new();
    let events = vec![None, None];
    let report = run_script(&mut s, &events);
    assert!(!report.quit);
    assert_eq!(report.frames, 2);
    assert_eq!(report.alerts, 0);
    assert_eq!(s.elapsed, 2);
    assert!(s.running);
}

#[test]
fn script_counts_alerts() {
    // Timer of three seconds, five timeouts: one completion alert.
    let mut t = TimerUI::new(3);
    let events = vec![None, None, None, None, None];
    let report = run_script(&mut t, &events);
    assert!(!report.quit);
    assert_eq!(report.frames, 5);
    assert_eq!(report.alerts, 1);
    assert_eq!(t.display_value(), 0);
}

#[test]
fn script_mixes_keys_and_ticks() {
    // Pause for two waits, resume, then tick twice: only the running
    // ticks count.
    let mut s = StopwatchUI::new();
    let events = vec![
        Some(Key::Char(' ')),
        None,
        None,
        Some(Key::Char(' ')),
        None,
        None,
    ];
    let report = run_script(&mut s, &events);
    assert!(!report.quit);
    assert_eq!(report.frames, 6);
    assert_eq!(s.elapsed, 2);
}
