use pomoduo::engine::{TickOutcome, TimerEngine};
use pomoduo::timer::{Phase, Settings};

const NOW: i64 = 1_700_000_000_000;

fn sample_settings() -> Settings {
    Settings {
        focus_ms: 25 * 60_000,
        short_break_ms: 5 * 60_000,
        long_break_ms: 15 * 60_000,
        long_break_every: 4,
        notify_enabled: true,
        sound_enabled: true,
        locale: "en-US".to_string(),
    }
}

#[test]
fn fresh_engine_starts_paused_on_focus() {
    let engine = TimerEngine::new(Some(sample_settings()), None, NOW);
    let snapshot = engine.get_state(NOW);

    assert_eq!(snapshot.phase, Phase::Focus);
    assert!(!snapshot.is_running);
    assert_eq!(snapshot.cycle_count, 0);
    assert_eq!(snapshot.remaining_ms, 25 * 60_000);
    assert_eq!(snapshot.end_at_ms, None);
}

#[test]
fn start_sets_deadline_and_marks_running() {
    let mut engine = TimerEngine::new(Some(sample_settings()), None, NOW);

    let (snapshot, persist) = engine.start(NOW);

    assert!(snapshot.is_running);
    assert_eq!(snapshot.end_at_ms, Some(NOW + 25 * 60_000));
    assert_eq!(snapshot.remaining_ms, 25 * 60_000);
    let runtime = persist.expect("a freshly started timer must be persisted");
    assert!(runtime.is_running);
    assert_eq!(runtime.end_at_ms, Some(NOW + 25 * 60_000));
}

#[test]
fn start_while_running_returns_the_unchanged_snapshot() {
    let mut engine = TimerEngine::new(Some(sample_settings()), None, NOW);
    engine.start(NOW).1.expect("first start persists");

    let later = NOW + 90_000;
    let before = engine.get_state(later);
    let (snapshot, persist) = engine.start(later);

    assert!(persist.is_none());
    assert_eq!(snapshot.phase, before.phase);
    assert_eq!(snapshot.is_running, before.is_running);
    assert_eq!(snapshot.cycle_count, before.cycle_count);
    assert_eq!(snapshot.end_at_ms, before.end_at_ms);
    assert_eq!(snapshot.remaining_ms, before.remaining_ms);
}

#[test]
fn resume_behaves_like_start() {
    let mut engine = TimerEngine::new(Some(sample_settings()), None, NOW);

    let (snapshot, persist) = engine.resume(NOW);

    assert!(snapshot.is_running);
    assert!(persist.is_some());
}

#[test]
fn reset_returns_to_a_paused_focus_phase() {
    let mut engine = TimerEngine::new(Some(sample_settings()), None, NOW);
    engine.start(NOW);

    let (snapshot, runtime) = engine.reset(NOW + 5_000);

    assert_eq!(snapshot.phase, Phase::Focus);
    assert!(!snapshot.is_running);
    assert_eq!(snapshot.cycle_count, 0);
    assert_eq!(snapshot.end_at_ms, None);
    assert_eq!(snapshot.remaining_ms, 25 * 60_000);
    assert_eq!(runtime.remaining_ms, 25 * 60_000);
}

#[test]
fn update_settings_preserves_a_live_countdown() {
    let mut engine = TimerEngine::new(Some(sample_settings()), None, NOW);
    engine.start(NOW);

    let later = NOW + 60_000;
    let mut next = sample_settings();
    next.focus_ms = 50 * 60_000;
    let (snapshot, persisted_settings, runtime) = engine.update_settings(next, later);

    assert!(snapshot.is_running);
    assert_eq!(snapshot.remaining_ms, 24 * 60_000);
    assert_eq!(snapshot.end_at_ms, Some(later + 24 * 60_000));
    assert_eq!(persisted_settings.focus_ms, 50 * 60_000);
    assert_eq!(runtime.remaining_ms, 24 * 60_000);
}

#[test]
fn update_settings_reloads_the_phase_duration_when_paused() {
    let mut engine = TimerEngine::new(Some(sample_settings()), None, NOW);

    let mut next = sample_settings();
    next.focus_ms = 50 * 60_000;
    let (snapshot, _, _) = engine.update_settings(next, NOW);

    assert!(!snapshot.is_running);
    assert_eq!(snapshot.remaining_ms, 50 * 60_000);
    assert_eq!(snapshot.end_at_ms, None);
}

#[test]
fn tick_on_a_paused_timer_does_nothing() {
    let mut engine = TimerEngine::new(Some(sample_settings()), None, NOW);

    let outcome = engine.handle_tick(NOW + 1_000);

    assert!(matches!(outcome, TickOutcome::NotRunning));
}

#[test]
fn tick_on_a_live_countdown_reports_the_fresh_remaining_time() {
    let mut engine = TimerEngine::new(Some(sample_settings()), None, NOW);
    engine.start(NOW);

    let outcome = engine.handle_tick(NOW + 1_000);

    match outcome {
        TickOutcome::Running(snapshot) => {
            assert_eq!(snapshot.remaining_ms, 25 * 60_000 - 1_000);
            assert!(snapshot.is_running);
        }
        other => panic!("expected a running tick, got {:?}", describe(&other)),
    }
}

#[test]
fn tick_past_the_deadline_completes_exactly_one_phase() {
    let mut engine = TimerEngine::new(Some(sample_settings()), None, NOW);
    engine.start(NOW);

    let outcome = engine.handle_tick(NOW + 25 * 60_000);

    match outcome {
        TickOutcome::Completed { snapshot, runtime_state, completion } => {
            assert_eq!(completion.finished_phase, Phase::Focus);
            assert_eq!(completion.next_phase, Phase::ShortBreak);
            assert!(completion.notify_enabled);
            assert!(completion.sound_enabled);
            assert_eq!(completion.locale, "en-US");
            assert_eq!(snapshot.phase, Phase::ShortBreak);
            assert!(!snapshot.is_running);
            assert_eq!(snapshot.cycle_count, 1);
            assert_eq!(runtime_state.remaining_ms, 5 * 60_000);
        }
        other => panic!("expected a completion, got {:?}", describe(&other)),
    }
}

fn describe(outcome: &TickOutcome) -> &'static str {
    match outcome {
        TickOutcome::NotRunning => "not running",
        TickOutcome::Running(_) => "running",
        TickOutcome::Completed { .. } => "completed",
    }
}
