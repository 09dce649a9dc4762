use pomoduo::analytics::{
    prune_history, record_focus_completion, update_goals, AnalyticsState, DailyMetrics, DayEntry,
    GoalPair, GoalSettings, HEATMAP_DAYS,
};
use pomoduo::date::Date;
use pomoduo::insights::build_insights_snapshot;

fn sample_state() -> AnalyticsState {
    AnalyticsState {
        version: 1,
        daily: Vec::new(),
        goals: GoalSettings {
            daily: GoalPair { focus_target: 8, long_cycle_target: 2 },
            weekly: GoalPair { focus_target: 40, long_cycle_target: 10 },
            monthly: GoalPair { focus_target: 160, long_cycle_target: 40 },
        },
    }
}

fn day(state: &AnalyticsState, key: &str) -> Option<DailyMetrics> {
    state.daily.iter().find(|e| e.key == key).map(|e| e.metrics)
}

#[test]
fn heatmap_has_fixed_days_and_fills_missing_days_with_zero() {
    let today = Date { year: 2026, month: 2, day: 15 };
    let mut state = sample_state();
    state.daily.push(DayEntry {
        key: "2026-02-15".to_string(),
        metrics: DailyMetrics { focus_completed: 3, long_cycle_completed: 1 },
    });

    let snapshot = build_insights_snapshot(&state, "en-US", today);

    assert_eq!(snapshot.heatmap.len(), HEATMAP_DAYS);
    assert_eq!(snapshot.heatmap.last().unwrap().date, "2026-02-15");
    assert_eq!(snapshot.heatmap.last().unwrap().focus_completed, 3);
    assert_eq!(snapshot.heatmap.first().unwrap().focus_completed, 0);
}

#[test]
fn weekly_summary_respects_locale_week_start() {
    let today = Date { year: 2026, month: 2, day: 11 }; // Wednesday
    let mut state = sample_state();
    state.daily.push(DayEntry {
        key: "2026-02-08".to_string(), // Sunday
        metrics: DailyMetrics { focus_completed: 2, long_cycle_completed: 0 },
    });
    state.daily.push(DayEntry {
        key: "2026-02-09".to_string(), // Monday
        metrics: DailyMetrics { focus_completed: 3, long_cycle_completed: 1 },
    });

    let en = build_insights_snapshot(&state, "en-US", today);
    let zh = build_insights_snapshot(&state, "zh-CN", today);

    assert_eq!(en.summaries.weekly.focus_completed, 5);
    assert_eq!(zh.summaries.weekly.focus_completed, 3);
}

#[test]
fn monthly_summary_handles_month_boundaries() {
    let today = Date { year: 2026, month: 3, day: 1 };
    let mut state = sample_state();
    state.daily.push(DayEntry {
        key: "2026-02-28".to_string(),
        metrics: DailyMetrics { focus_completed: 7, long_cycle_completed: 2 },
    });
    state.daily.push(DayEntry {
        key: "2026-03-01".to_string(),
        metrics: DailyMetrics { focus_completed: 4, long_cycle_completed: 1 },
    });

    let snapshot = build_insights_snapshot(&state, "en-US", today);

    assert_eq!(snapshot.summaries.monthly.focus_completed, 4);
    assert_eq!(snapshot.summaries.monthly.long_cycle_completed, 1);
}

#[test]
fn prune_history_keeps_only_recent_days() {
    let today = Date { year: 2026, month: 2, day: 15 };
    let mut state = sample_state();
    state.daily.push(DayEntry {
        key: "2024-12-31".to_string(),
        metrics: DailyMetrics { focus_completed: 1, long_cycle_completed: 0 },
    });
    state.daily.push(DayEntry {
        key: "2026-02-15".to_string(),
        metrics: DailyMetrics { focus_completed: 1, long_cycle_completed: 0 },
    });

    prune_history(&mut state, today, 400);

    assert_eq!(state.daily.len(), 1);
    assert!(day(&state, "2026-02-15").is_some());
}

#[test]
fn record_focus_completion_updates_both_metrics_when_long_cycle_completed() {
    let today = Date { year: 2026, month: 2, day: 15 };
    let mut state = sample_state();

    record_focus_completion(&mut state, today, true);

    let metrics = day(&state, "2026-02-15").unwrap();
    assert_eq!(metrics.focus_completed, 1);
    assert_eq!(metrics.long_cycle_completed, 1);
}

#[test]
fn record_focus_completion_saturates_at_the_counter_maximum() {
    let today = Date { year: 2026, month: 2, day: 15 };
    let mut state = sample_state();
    state.daily.push(DayEntry {
        key: "2026-02-15".to_string(),
        metrics: DailyMetrics { focus_completed: u32::MAX, long_cycle_completed: u32::MAX },
    });

    record_focus_completion(&mut state, today, true);

    let metrics = day(&state, "2026-02-15").unwrap();
    assert_eq!(metrics.focus_completed, u32::MAX);
    assert_eq!(metrics.long_cycle_completed, u32::MAX);
}

#[test]
fn record_focus_completion_without_long_cycle_leaves_long_counter_alone() {
    let today = Date { year: 2026, month: 2, day: 15 };
    let mut state = sample_state();

    record_focus_completion(&mut state, today, false);
    record_focus_completion(&mut state, today, false);

    let metrics = day(&state, "2026-02-15").unwrap();
    assert_eq!(metrics.focus_completed, 2);
    assert_eq!(metrics.long_cycle_completed, 0);
}

#[test]
fn prune_history_with_horizon_under_one_day_is_a_no_op() {
    let today = Date { year: 2026, month: 2, day: 15 };
    let mut state = sample_state();
    state.daily.push(DayEntry {
        key: "1999-01-01".to_string(),
        metrics: DailyMetrics { focus_completed: 1, long_cycle_completed: 0 },
    });

    prune_history(&mut state, today, 0);

    assert_eq!(state.daily.len(), 1);
}

#[test]
fn prune_history_drops_malformed_keys() {
    let today = Date { year: 2026, month: 2, day: 15 };
    let mut state = sample_state();
    state.daily.push(DayEntry {
        key: "not-a-date".to_string(),
        metrics: DailyMetrics { focus_completed: 9, long_cycle_completed: 9 },
    });
    state.daily.push(DayEntry {
        key: "2026-2-5".to_string(),
        metrics: DailyMetrics { focus_completed: 9, long_cycle_completed: 9 },
    });
    state.daily.push(DayEntry {
        key: "2026-02-15".to_string(),
        metrics: DailyMetrics { focus_completed: 1, long_cycle_completed: 0 },
    });

    prune_history(&mut state, today, 400);

    assert_eq!(state.daily.len(), 1);
    assert!(day(&state, "2026-02-15").is_some());
}

#[test]
fn update_goals_heals_zero_targets_from_defaults() {
    let mut state = sample_state();

    update_goals(
        &mut state,
        GoalSettings {
            daily: GoalPair { focus_target: 0, long_cycle_target: 3 },
            weekly: GoalPair { focus_target: 50, long_cycle_target: 0 },
            monthly: GoalPair { focus_target: 0, long_cycle_target: 0 },
        },
    );

    assert_eq!(state.goals.daily.focus_target, 8);
    assert_eq!(state.goals.daily.long_cycle_target, 3);
    assert_eq!(state.goals.weekly.focus_target, 50);
    assert_eq!(state.goals.weekly.long_cycle_target, 10);
    assert_eq!(state.goals.monthly.focus_target, 160);
    assert_eq!(state.goals.monthly.long_cycle_target, 40);
}

#[test]
fn heatmap_is_full_length_for_an_empty_state() {
    let today = Date { year: 2026, month: 1, day: 1 };
    let state = sample_state();

    let snapshot = build_insights_snapshot(&state, "en-US", today);

    assert_eq!(snapshot.heatmap.len(), HEATMAP_DAYS);
    assert_eq!(snapshot.heatmap.first().unwrap().date, "2024-12-27");
    assert_eq!(snapshot.heatmap.last().unwrap().date, "2026-01-01");
    assert!(snapshot.heatmap.iter().all(|d| d.focus_completed == 0));
}

#[test]
fn daily_summary_marks_goals_met() {
    let today = Date { year: 2026, month: 2, day: 15 };
    let mut state = sample_state();
    state.daily.push(DayEntry {
        key: "2026-02-15".to_string(),
        metrics: DailyMetrics { focus_completed: 8, long_cycle_completed: 2 },
    });

    let snapshot = build_insights_snapshot(&state, "en-US", today);

    assert!(snapshot.summaries.daily.completed);
    assert_eq!(snapshot.summaries.daily.focus_target, 8);
    assert!(!snapshot.summaries.weekly.completed);
}

#[test]
fn analytics_state_sanitization_heals_version_and_goal_targets() {
    let state = AnalyticsState {
        version: 0,
        daily: Vec::new(),
        goals: GoalSettings {
            daily: GoalPair { focus_target: 0, long_cycle_target: 0 },
            weekly: GoalPair { focus_target: 7, long_cycle_target: 0 },
            monthly: GoalPair { focus_target: 0, long_cycle_target: 5 },
        },
    };

    let sane = state.sanitized();

    assert_eq!(sane.version, 1);
    assert_eq!(sane.goals.daily, GoalPair { focus_target: 8, long_cycle_target: 2 });
    assert_eq!(sane.goals.weekly, GoalPair { focus_target: 7, long_cycle_target: 10 });
    assert_eq!(sane.goals.monthly, GoalPair { focus_target: 160, long_cycle_target: 5 });
}
