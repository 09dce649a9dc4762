use pomoduo::locale::normalize_locale;
use pomoduo::timer::{Phase, RuntimeState, Settings, TimerState};

const TEST_NOW_MS: i64 = 1_700_000_000_000;

fn sample_settings() -> Settings {
    Settings {
        focus_ms: 25 * 60_000,
        short_break_ms: 5 * 60_000,
        long_break_ms: 15 * 60_000,
        long_break_every: 4,
        notify_enabled: true,
        sound_enabled: true,
        locale: "en-US".to_string(),
    }
}

#[test]
fn restore_running_timer_with_future_end_at_keeps_running() {
    let settings = sample_settings();
    let runtime = RuntimeState {
        phase: Phase::Focus,
        is_running: true,
        cycle_count: 1,
        end_at_ms: Some(TEST_NOW_MS + 90_000),
        remaining_ms: 12_345,
    };

    let state = TimerState::from_storage_at(settings, Some(runtime), TEST_NOW_MS);

    assert!(state.is_running);
    assert_eq!(state.phase, Phase::Focus);
    assert_eq!(state.end_at_ms, Some(TEST_NOW_MS + 90_000));
    assert_eq!(state.remaining_ms, 90_000);
    assert_eq!(state.cycle_count, 1);
}

#[test]
fn restore_running_timer_without_end_at_falls_back_to_paused_phase_duration() {
    let settings = sample_settings();
    let runtime = RuntimeState {
        phase: Phase::ShortBreak,
        is_running: true,
        cycle_count: 2,
        end_at_ms: None,
        remaining_ms: 30_000,
    };

    let state = TimerState::from_storage_at(settings.clone(), Some(runtime), TEST_NOW_MS);

    assert!(!state.is_running);
    assert_eq!(state.phase, Phase::ShortBreak);
    assert_eq!(state.end_at_ms, None);
    assert_eq!(state.remaining_ms, settings.short_break_ms);
    assert_eq!(state.cycle_count, 2);
}

#[test]
fn restore_expired_focus_advances_to_short_break_and_increments_cycle() {
    let settings = sample_settings();
    let runtime = RuntimeState {
        phase: Phase::Focus,
        is_running: true,
        cycle_count: 0,
        end_at_ms: Some(TEST_NOW_MS - 1),
        remaining_ms: 1_000,
    };

    let state = TimerState::from_storage_at(settings.clone(), Some(runtime), TEST_NOW_MS);

    assert!(!state.is_running);
    assert_eq!(state.phase, Phase::ShortBreak);
    assert_eq!(state.end_at_ms, None);
    assert_eq!(state.remaining_ms, settings.short_break_ms);
    assert_eq!(state.cycle_count, 1);
}

#[test]
fn restore_expired_focus_on_boundary_enters_long_break() {
    let settings = sample_settings();
    let runtime = RuntimeState {
        phase: Phase::Focus,
        is_running: true,
        cycle_count: 3,
        end_at_ms: Some(TEST_NOW_MS - 5),
        remaining_ms: 1_000,
    };

    let state = TimerState::from_storage_at(settings.clone(), Some(runtime), TEST_NOW_MS);

    assert!(!state.is_running);
    assert_eq!(state.phase, Phase::LongBreak);
    assert_eq!(state.end_at_ms, None);
    assert_eq!(state.remaining_ms, settings.long_break_ms);
    assert_eq!(state.cycle_count, 4);
}

#[test]
fn restore_expired_break_returns_to_focus_without_changing_cycle_count() {
    let settings = sample_settings();
    let runtime = RuntimeState {
        phase: Phase::ShortBreak,
        is_running: true,
        cycle_count: 2,
        end_at_ms: Some(TEST_NOW_MS - 10),
        remaining_ms: 2_000,
    };

    let state = TimerState::from_storage_at(settings.clone(), Some(runtime), TEST_NOW_MS);

    assert!(!state.is_running);
    assert_eq!(state.phase, Phase::Focus);
    assert_eq!(state.end_at_ms, None);
    assert_eq!(state.remaining_ms, settings.focus_ms);
    assert_eq!(state.cycle_count, 2);
}

#[test]
fn restore_paused_state_with_non_positive_remaining_resets_to_phase_duration() {
    let settings = sample_settings();
    let runtime = RuntimeState {
        phase: Phase::LongBreak,
        is_running: false,
        cycle_count: 5,
        end_at_ms: None,
        remaining_ms: 0,
    };

    let state = TimerState::from_storage_at(settings.clone(), Some(runtime), TEST_NOW_MS);

    assert!(!state.is_running);
    assert_eq!(state.phase, Phase::LongBreak);
    assert_eq!(state.end_at_ms, None);
    assert_eq!(state.remaining_ms, settings.long_break_ms);
    assert_eq!(state.cycle_count, 5);
}

#[test]
fn restore_paused_state_keeps_a_positive_sub_second_remaining() {
    let settings = sample_settings();
    let runtime = RuntimeState {
        phase: Phase::Focus,
        is_running: false,
        cycle_count: 1,
        end_at_ms: None,
        remaining_ms: 500,
    };

    let state = TimerState::from_storage_at(settings, Some(runtime), TEST_NOW_MS);

    assert!(!state.is_running);
    assert_eq!(state.remaining_ms, 500);
    assert_eq!(state.cycle_count, 1);
}

#[test]
fn restore_paused_state_heals_a_negative_remaining() {
    let settings = sample_settings();
    let runtime = RuntimeState {
        phase: Phase::ShortBreak,
        is_running: false,
        cycle_count: 1,
        end_at_ms: None,
        remaining_ms: -250,
    };

    let state = TimerState::from_storage_at(settings.clone(), Some(runtime), TEST_NOW_MS);

    assert_eq!(state.remaining_ms, settings.short_break_ms);
}

#[test]
fn normalize_locale_trims_unicode_whitespace() {
    assert_eq!(normalize_locale("\u{a0}zh\u{3000}"), "zh-CN");
    assert_eq!(normalize_locale("\u{2003}zh-CN\t"), "zh-CN");
    assert_eq!(normalize_locale("\u{a0}"), "en-US");
}

#[test]
fn normalize_locale_supports_common_aliases() {
    assert_eq!(normalize_locale("zh-CN"), "zh-CN");
    assert_eq!(normalize_locale("zh_cn"), "zh-CN");
    assert_eq!(normalize_locale("zh"), "zh-CN");
    assert_eq!(normalize_locale("en"), "en-US");
    assert_eq!(normalize_locale(""), "en-US");
}

#[test]
fn sanitization_replaces_only_invalid_settings_fields() {
    let raw = Settings {
        focus_ms: 500,
        short_break_ms: 300_000,
        long_break_ms: 999,
        long_break_every: 0,
        notify_enabled: false,
        sound_enabled: true,
        locale: " ZH_cn ".to_string(),
    };

    let sane = raw.sanitized();

    assert_eq!(sane.focus_ms, 25 * 60_000);
    assert_eq!(sane.short_break_ms, 300_000);
    assert_eq!(sane.long_break_ms, 15 * 60_000);
    assert_eq!(sane.long_break_every, 4);
    assert!(!sane.notify_enabled);
    assert!(sane.sound_enabled);
    assert_eq!(sane.locale, "zh-CN");
}

#[test]
fn successive_focus_completions_follow_the_long_break_cycle() {
    let settings = sample_settings();
    let mut state = TimerState::from_storage_at(settings, None, TEST_NOW_MS);
    let mut next_phases = Vec::new();

    for _ in 0..4 {
        state.phase = Phase::Focus;
        let meta = state.complete_current_phase();
        next_phases.push(meta.next_phase);
    }

    assert_eq!(
        next_phases,
        vec![Phase::ShortBreak, Phase::ShortBreak, Phase::ShortBreak, Phase::LongBreak]
    );
    assert_eq!(state.cycle_count, 4);
}

#[test]
fn completing_a_break_does_not_change_the_cycle_count() {
    let settings = sample_settings();
    let mut state = TimerState::from_storage_at(settings, None, TEST_NOW_MS);
    state.phase = Phase::LongBreak;
    state.cycle_count = 4;

    let meta = state.complete_current_phase();

    assert_eq!(meta.finished_phase, Phase::LongBreak);
    assert_eq!(meta.next_phase, Phase::Focus);
    assert_eq!(state.cycle_count, 4);
}
