use counter::command::Command;
use counter::pomodoro::{Phase, PomodoroConfig, PomodoroUI};
use counter::stopwatch::StopwatchUI;
use counter::timer::TimerUI;
use counter::ui::CounterUI;

#[test]
fn stopwatch_starts_fresh() {
    let s = StopwatchUI::new();
    assert_eq!(s.elapsed, 0);
    assert!(s.running);
    assert_eq!(StopwatchUI::default(), s);
}

#[test]
fn stopwatch_ticks_while_running() {
    let mut s = StopwatchUI::new();
    for _ in 0..4 {
        let alert = s.tick();
        assert!(!alert);
    }
    assert_eq!(s.elapsed, 4);
    assert_eq!(s.display_value(), 4);
}

#[test]
fn stopwatch_counts_only_while_running() {
    // Pause, three ticks, resume, two ticks: only the running ticks count.
    let mut s = StopwatchUI::new();
    s.update(Command::PauseResume);
    assert!(!s.running);
    for _ in 0..3 {
        s.tick();
    }
    assert_eq!(s.elapsed, 0);
    s.update(Command::PauseResume);
    assert!(s.running);
    for _ in 0..2 {
        s.tick();
    }
    assert_eq!(s.elapsed, 2);
}

#[test]
fn stopwatch_reset_clears_count() {
    let mut s = StopwatchUI::new();
    s.tick();
    s.tick();
    s.update(Command::Reset);
    assert_eq!(s.elapsed, 0);
    assert!(s.running);
}

#[test]
fn stopwatch_skip_is_a_noop() {
    let mut s = StopwatchUI::new();
    s.tick();
    let before = s;
    let alert = s.update(Command::Skip);
    assert!(!alert);
    assert_eq!(s, before);
}

#[test]
fn stopwatch_saturates_at_max() {
    let mut s = StopwatchUI {
        elapsed: u64::MAX,
        running: true,
    };
    let alert = s.tick();
    assert!(!alert);
    assert_eq!(s.elapsed, u64::MAX);
}

#[test]
fn timer_counts_down_and_alerts_once() {
    // Target 5: remaining reads 4, 3, 2, 1, 0 and the alert fires exactly
    // at the fifth tick, not before or after.
    let mut t = TimerUI::new(5);
    assert_eq!(t.display_value(), 5);
    let mut alerts = 0;
    let expected_remaining = [4, 3, 2, 1, 0];
    for (i, want) in expected_remaining.iter().enumerate() {
        let alert = t.tick();
        if alert {
            alerts += 1;
            assert_eq!(i, 4);
        }
        assert_eq!(t.display_value(), *want);
    }
    assert_eq!(alerts, 1);
    for _ in 0..10 {
        let alert = t.tick();
        assert!(!alert);
        assert_eq!(t.display_value(), 0);
    }
}

#[test]
fn timer_tick_while_paused_changes_nothing() {
    let mut t = TimerUI::new(3);
    t.tick();
    t.update(Command::PauseResume);
    assert!(!t.running);
    let before = t;
    let alert = t.tick();
    assert!(!alert);
    assert_eq!(t, before);
}

#[test]
fn timer_skip_completes_immediately() {
    let mut t = TimerUI::new(60);
    t.tick();
    let alert = t.update(Command::Skip);
    assert!(alert);
    assert_eq!(t.elapsed, 60);
    assert_eq!(t.display_value(), 0);
    // The edge already fired: neither another skip nor further ticks
    // fire it again.
    assert!(!t.update(Command::Skip));
    assert!(!t.tick());
}

#[test]
fn timer_skip_equals_ticking_to_expiry() {
    // Skip is the same as delivering exactly target - elapsed ticks.
    let mut skipped = TimerUI::new(7);
    skipped.tick();
    skipped.tick();
    let mut ticked = skipped;
    let skip_alerts = if skipped.update(Command::Skip) { 1 } else { 0 };
    let mut tick_alerts = 0;
    for _ in 0..5 {
        if ticked.tick() {
            tick_alerts += 1;
        }
    }
    assert_eq!(skipped, ticked);
    assert_eq!(skip_alerts, 1);
    assert_eq!(tick_alerts, 1);
}

#[test]
fn timer_reset_starts_a_new_cycle() {
    let mut t = TimerUI::new(2);
    t.tick();
    t.tick();
    assert_eq!(t.display_value(), 0);
    t.update(Command::Reset);
    assert_eq!(t.elapsed, 0);
    assert_eq!(t.display_value(), 2);
    // The alert edge is re-armed: a new expiry fires again.
    assert!(!t.tick());
    assert!(t.tick());
}

#[test]
fn timer_of_one_second_alerts_on_first_tick() {
    let mut t = TimerUI::new(1);
    assert!(t.tick());
    assert_eq!(t.display_value(), 0);
    assert!(!t.tick());
}

#[test]
fn pomodoro_presets() {
    let short = PomodoroConfig::short();
    assert_eq!(short.work_time, 25 * 60);
    assert_eq!(short.break_time, 5 * 60);
    let long = PomodoroConfig::long();
    assert_eq!(long.work_time, 50 * 60);
    assert_eq!(long.break_time, 10 * 60);
}

#[test]
fn pomodoro_alternates_phases() {
    // Work 2, break 3: two ticks end the work phase, three more end the
    // break phase; one alert per transition.
    let mut p = PomodoroUI::new(PomodoroConfig {
        work_time: 2,
        break_time: 3,
    });
    let mut alerts = 0;
    assert!(matches!(p.phase, Phase::Work));
    if p.tick() {
        alerts += 1;
    }
    if p.tick() {
        alerts += 1;
    }
    assert!(matches!(p.phase, Phase::Break));
    assert_eq!(p.elapsed, 0);
    assert_eq!(p.display_value(), 3);
    for _ in 0..3 {
        if p.tick() {
            alerts += 1;
        }
    }
    assert!(matches!(p.phase, Phase::Work));
    assert_eq!(p.display_value(), 2);
    assert_eq!(alerts, 2);
}

#[test]
fn pomodoro_transition_keeps_running_flag() {
    let mut p = PomodoroUI::new(PomodoroConfig {
        work_time: 1,
        break_time: 1,
    });
    assert!(p.tick());
    assert!(p.running);
    assert!(matches!(p.phase, Phase::Break));
    assert!(p.tick());
    assert!(matches!(p.phase, Phase::Work));
}

#[test]
fn pomodoro_skip_forces_transition() {
    let mut p = PomodoroUI::new(PomodoroConfig {
        work_time: 1500,
        break_time: 300,
    });
    p.tick();
    let alert = p.update(Command::Skip);
    assert!(alert);
    assert!(matches!(p.phase, Phase::Break));
    assert_eq!(p.elapsed, 0);
    assert_eq!(p.display_value(), 300);
}

#[test]
fn pomodoro_reset_returns_to_work() {
    let mut p = PomodoroUI::new(PomodoroConfig {
        work_time: 2,
        break_time: 3,
    });
    p.tick();
    p.tick();
    p.tick();
    assert!(matches!(p.phase, Phase::Break));
    let alert = p.update(Command::Reset);
    assert!(!alert);
    assert!(matches!(p.phase, Phase::Work));
    assert_eq!(p.elapsed, 0);
    assert!(p.running);
}

#[test]
fn pomodoro_tick_while_paused_changes_nothing() {
    let mut p = PomodoroUI::new(PomodoroConfig {
        work_time: 2,
        break_time: 3,
    });
    p.tick();
    p.update(Command::PauseResume);
    let before = p;
    let alert = p.tick();
    assert!(!alert);
    assert_eq!(p, before);
}
