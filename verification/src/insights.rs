use crate::analytics::{
    analytics_wf, metrics_at, metrics_for_key, AnalyticsState, DailyMetrics, DayEntry, GoalPair,
    GoalSettings, HEATMAP_DAYS,
};
use crate::date::{
    date_valid, day_key, day_key_seq, day_number, day_number_of, days_in_month, parse_day_key,
    parse_day_key_spec, prev_day, spec_days_in_month, spec_minus_days, spec_weekday_index, Date,
    weekday_index,
};
use crate::locale::{is_zh_locale, locale_is_zh};
use vstd::prelude::*;

verus! {

/// One cell of the completion heatmap: a day key and that day's counters.
#[derive(Clone, Debug)]
#[verifier::ext_equal]
pub struct HeatmapDay {
    pub date: String,
    pub focus_completed: u32,
    pub long_cycle_completed: u32,
}

/// A period's aggregated counters held against its goal targets. The shell
/// derives the two completion rates from these counts, since rates are
/// floating point.
#[derive(Clone, Copy, PartialEq, Eq, Structural, Debug)]
pub struct PeriodSummary {
    pub focus_completed: u32,
    pub long_cycle_completed: u32,
    pub focus_target: u32,
    pub long_cycle_target: u32,
    pub completed: bool,
}

#[derive(Clone, Copy, PartialEq, Eq, Structural, Debug)]
pub struct PeriodSummaries {
    pub daily: PeriodSummary,
    pub weekly: PeriodSummary,
    pub monthly: PeriodSummary,
}

/// Everything the insights view renders: the heatmap, the three period
/// summaries and the stored goals.
#[derive(Clone, Debug)]
#[verifier::ext_equal]
pub struct InsightsSnapshot {
    pub heatmap: Vec<HeatmapDay>,
    pub summaries: PeriodSummaries,
    pub goals: GoalSettings,
}

/// Relies on chrono's `DateTime::from_timestamp`, `with_timezone` and
/// `NaiveDate` accessors: the local calendar date is a valid proleptic
/// Gregorian date whose year chrono keeps within a few hundred thousand of
/// zero. The clock is read through `SystemTime`, with the epoch as the
/// fallback for a reading chrono cannot represent, so the body cannot abort.
/// Which date comes back depends on the clock and the machine's time zone,
/// so nothing more can be promised.
#[verifier::external_body]
pub fn current_local_date() -> (r: Date)
    ensures
        1 <= r.month <= 12,
        1 <= r.day,
        r.day as int <= spec_days_in_month(r.year as int, r.month as int),
        -262144 <= r.year <= 262144,
{
    let secs = std::time::SystemTime::now()
        .duration_since(std::time::UNIX_EPOCH)
        .map(|d| d.as_secs() as i64)
        .unwrap_or(0);
    let utc = chrono::DateTime::from_timestamp(secs, 0).unwrap_or(chrono::DateTime::UNIX_EPOCH);
    let today = utc.with_timezone(&chrono::Local).date_naive();
    Date {
        year: chrono::Datelike::year(&today),
        month: chrono::Datelike::month(&today) as u8,
        day: chrono::Datelike::day(&today) as u8,
    }
}

/// Whether a stored day falls in the inclusive day-number window; a key that
/// fails to parse falls in no window.
pub open spec fn in_window(e: DayEntry, lo: int, hi: int) -> bool {
    match parse_day_key_spec(e.key@) {
        Some(d) => lo <= day_number(d) <= hi,
        None => false,
    }
}

pub open spec fn window_focus_sum(s: Seq<DayEntry>, lo: int, hi: int) -> int
    decreases s.len(),
{
    if s.len() == 0 {
        0
    } else {
        window_focus_sum(s.drop_last(), lo, hi) + if in_window(s.last(), lo, hi) {
            s.last().metrics.focus_completed as int
        } else {
            0int
        }
    }
}

pub open spec fn window_long_sum(s: Seq<DayEntry>, lo: int, hi: int) -> int
    decreases s.len(),
{
    if s.len() == 0 {
        0
    } else {
        window_long_sum(s.drop_last(), lo, hi) + if in_window(s.last(), lo, hi) {
            s.last().metrics.long_cycle_completed as int
        } else {
            0int
        }
    }
}

pub open spec fn sat32(x: int) -> u32 {
    if x > u32::MAX {
        u32::MAX
    } else {
        x as u32
    }
}

/// The counters aggregated (saturating) over every stored day whose date
/// falls in the inclusive day-number window.
pub open spec fn window_metrics(s: Seq<DayEntry>, lo: int, hi: int) -> DailyMetrics {
    (DailyMetrics {
        focus_completed: sat32(window_focus_sum(s, lo, hi)),
        long_cycle_completed: sat32(window_long_sum(s, lo, hi)),
    })
}

proof fn lemma_window_sums_nonneg(s: Seq<DayEntry>, lo: int, hi: int)
    ensures
        window_focus_sum(s, lo, hi) >= 0,
        window_long_sum(s, lo, hi) >= 0,
    decreases s.len(),
{
    if s.len() > 0 {
        lemma_window_sums_nonneg(s.drop_last(), lo, hi);
    }
}

/// Sums the counters of every stored day whose parsed date lies in the
/// inclusive window `[lo_dn, hi_dn]` of day numbers, saturating.
fn range_metrics(state: &AnalyticsState, lo_dn: i64, hi_dn: i64) -> (r: DailyMetrics)
    ensures
        r == window_metrics(state.daily@, lo_dn as int, hi_dn as int),
{
    let ghost s = state.daily@;
    let mut focus: u32 = 0;
    let mut long: u32 = 0;
    let mut i: usize = 0;
    while i < state.daily.len()
        invariant
            state.daily@ == s,
            0 <= i <= s.len(),
            focus == sat32(window_focus_sum(s.subrange(0, i as int), lo_dn as int, hi_dn as int)),
            long == sat32(window_long_sum(s.subrange(0, i as int), lo_dn as int, hi_dn as int)),
        decreases s.len() - i,
    {
        let ghost prefix = s.subrange(0, i as int);
        let ghost extended = s.subrange(0, i as int + 1);
        let entry = &state.daily[i];
        let included = match parse_day_key(entry.key.as_str()) {
            Some(d) => {
                let dn = day_number_of(d);
                lo_dn <= dn && dn <= hi_dn
            },
            None => false,
        };
        proof {
            assert(extended.drop_last() =~= prefix);
            assert(included == in_window(s[i as int], lo_dn as int, hi_dn as int));
            lemma_window_sums_nonneg(prefix, lo_dn as int, hi_dn as int);
        }
        if included {
            focus = focus.saturating_add(entry.metrics.focus_completed);
            long = long.saturating_add(entry.metrics.long_cycle_completed);
        }
        i = i + 1;
    }
    proof {
        assert(s.subrange(0, s.len() as int) =~= s);
    }
    DailyMetrics { focus_completed: focus, long_cycle_completed: long }
}

/// A period summary from aggregated counters and a goal pair: targets are
/// clamped to at least one, and the period counts as completed exactly when
/// both counters meet or exceed their targets.
pub open spec fn spec_period_summary(metrics: DailyMetrics, goals: GoalPair) -> PeriodSummary {
    let focus_target: u32 = if goals.focus_target >= 1 {
        goals.focus_target
    } else {
        1u32
    };
    let long_cycle_target: u32 = if goals.long_cycle_target >= 1 {
        goals.long_cycle_target
    } else {
        1u32
    };
    (PeriodSummary {
        focus_completed: metrics.focus_completed,
        long_cycle_completed: metrics.long_cycle_completed,
        focus_target,
        long_cycle_target,
        completed: metrics.focus_completed >= focus_target && metrics.long_cycle_completed
            >= long_cycle_target,
    })
}

fn build_period_summary(metrics: DailyMetrics, goals: GoalPair) -> (r: PeriodSummary)
    ensures
        r == spec_period_summary(metrics, goals),
{
    let focus_target = if goals.focus_target >= 1 {
        goals.focus_target
    } else {
        1
    };
    let long_cycle_target = if goals.long_cycle_target >= 1 {
        goals.long_cycle_target
    } else {
        1
    };
    PeriodSummary {
        focus_completed: metrics.focus_completed,
        long_cycle_completed: metrics.long_cycle_completed,
        focus_target,
        long_cycle_target,
        completed: metrics.focus_completed >= focus_target && metrics.long_cycle_completed
            >= long_cycle_target,
    }
}

/// How many days before `today` the summary week starts: weeks start on
/// Monday for the Chinese locale bucket and on Sunday for every other.
pub open spec fn spec_week_offset(today: Date, locale: Seq<char>) -> int {
    let start: int = if locale_is_zh(locale) {
        0
    } else {
        6
    };
    (spec_weekday_index(today) + 7 - start) % 7
}

/// Day number of the first day of `today`'s calendar month.
pub open spec fn spec_month_first_dn(today: Date) -> int {
    day_number(today) - (today.day - 1)
}

/// Day number of the last day of `today`'s calendar month.
pub open spec fn spec_month_last_dn(today: Date) -> int {
    spec_month_first_dn(today) + spec_days_in_month(today.year as int, today.month as int) - 1
}

/// The heatmap cells and the three period summaries for `today`, together
/// with the stored goals. The heatmap always holds exactly `HEATMAP_DAYS`
/// cells — one per day of the 53 weeks ending at `today` inclusive, oldest
/// first, absent days filled with zero counters.
pub fn build_insights_snapshot(state: &AnalyticsState, locale: &str, today: Date) -> (r:
    InsightsSnapshot)
    requires
        analytics_wf(*state),
        date_valid(today),
        day_number(today) >= HEATMAP_DAYS - 1,
    ensures
        r.heatmap@.len() == HEATMAP_DAYS as int,
        forall|i: int|
            0 <= i < HEATMAP_DAYS as int ==> {
                let d = spec_minus_days(today, (HEATMAP_DAYS - 1 - i) as nat);
                &&& (#[trigger] r.heatmap@[i]).date@ == day_key_seq(d)
                &&& r.heatmap@[i].focus_completed == metrics_at(
                    state.daily_map(),
                    day_key_seq(d),
                ).focus_completed
                &&& r.heatmap@[i].long_cycle_completed == metrics_at(
                    state.daily_map(),
                    day_key_seq(d),
                ).long_cycle_completed
            },
        r.summaries.daily == spec_period_summary(
            metrics_at(state.daily_map(), day_key_seq(today)),
            state.goals.daily,
        ),
        r.summaries.weekly == spec_period_summary(
            window_metrics(
                state.daily@,
                day_number(today) - spec_week_offset(today, locale@),
                day_number(today) - spec_week_offset(today, locale@) + 6,
            ),
            state.goals.weekly,
        ),
        r.summaries.monthly == spec_period_summary(
            window_metrics(state.daily@, spec_month_first_dn(today), spec_month_last_dn(today)),
            state.goals.monthly,
        ),
        r.goals == state.goals,
{
    let summaries = PeriodSummaries {
        daily: period_summary_for_day(state, today),
        weekly: period_summary_for_week(state, locale, today),
        monthly: period_summary_for_month(state, today),
    };
    InsightsSnapshot { heatmap: build_heatmap(state, today), summaries, goals: state.goals }
}

fn period_summary_for_day(state: &AnalyticsState, today: Date) -> (r: PeriodSummary)
    requires
        analytics_wf(*state),
        date_valid(today),
    ensures
        r == spec_period_summary(
            metrics_at(state.daily_map(), day_key_seq(today)),
            state.goals.daily,
        ),
{
    let key = day_key(today);
    let metrics = metrics_for_key(state, &key);
    build_period_summary(metrics, state.goals.daily)
}

fn period_summary_for_week(state: &AnalyticsState, locale: &str, today: Date) -> (r: PeriodSummary)
    requires
        analytics_wf(*state),
        date_valid(today),
        day_number(today) >= 6,
    ensures
        r == spec_period_summary(
            window_metrics(
                state.daily@,
                day_number(today) - spec_week_offset(today, locale@),
                day_number(today) - spec_week_offset(today, locale@) + 6,
            ),
            state.goals.weekly,
        ),
{
    let start_idx: u8 = if is_zh_locale(locale) {
        0
    } else {
        6
    };
    let widx = weekday_index(today);
    let offset = ((widx + 7 - start_idx) % 7) as i64;
    let today_dn = day_number_of(today);
    let lo = today_dn - offset;
    let metrics = range_metrics(state, lo, lo + 6);
    build_period_summary(metrics, state.goals.weekly)
}

fn period_summary_for_month(state: &AnalyticsState, today: Date) -> (r: PeriodSummary)
    requires
        analytics_wf(*state),
        date_valid(today),
    ensures
        r == spec_period_summary(
            window_metrics(state.daily@, spec_month_first_dn(today), spec_month_last_dn(today)),
            state.goals.monthly,
        ),
{
    let today_dn = day_number_of(today);
    let lo = today_dn - ((today.day - 1) as i64);
    let hi = lo + (days_in_month(today.year, today.month) as i64) - 1;
    let metrics = range_metrics(state, lo, hi);
    build_period_summary(metrics, state.goals.monthly)
}

fn build_heatmap(state: &AnalyticsState, today: Date) -> (r: Vec<HeatmapDay>)
    requires
        analytics_wf(*state),
        date_valid(today),
        day_number(today) >= HEATMAP_DAYS - 1,
    ensures
        r@.len() == HEATMAP_DAYS as int,
        forall|i: int|
            0 <= i < HEATMAP_DAYS as int ==> {
                let d = spec_minus_days(today, (HEATMAP_DAYS - 1 - i) as nat);
                &&& (#[trigger] r@[i]).date@ == day_key_seq(d)
                &&& r@[i].focus_completed == metrics_at(
                    state.daily_map(),
                    day_key_seq(d),
                ).focus_completed
                &&& r@[i].long_cycle_completed == metrics_at(
                    state.daily_map(),
                    day_key_seq(d),
                ).long_cycle_completed
            },
{
    let mut rev: Vec<HeatmapDay> = Vec::new();
    let mut date = today;
    let mut o: usize = 0;
    while o < HEATMAP_DAYS
        invariant
            analytics_wf(*state),
            date_valid(today),
            day_number(today) >= HEATMAP_DAYS - 1,
            0 <= o <= HEATMAP_DAYS,
            o < HEATMAP_DAYS ==> {
                &&& date == spec_minus_days(today, o as nat)
                &&& date_valid(date)
                &&& day_number(date) == day_number(today) - o
            },
            rev@.len() == o,
            forall|j: int|
                0 <= j < o ==> {
                    let d = spec_minus_days(today, j as nat);
                    &&& (#[trigger] rev@[j]).date@ == day_key_seq(d)
                    &&& rev@[j].focus_completed == metrics_at(
                        state.daily_map(),
                        day_key_seq(d),
                    ).focus_completed
                    &&& rev@[j].long_cycle_completed == metrics_at(
                        state.daily_map(),
                        day_key_seq(d),
                    ).long_cycle_completed
                },
        decreases HEATMAP_DAYS - o,
    {
        let key = day_key(date);
        let metrics = metrics_for_key(state, &key);
        rev.push(
            HeatmapDay {
                date: key,
                focus_completed: metrics.focus_completed,
                long_cycle_completed: metrics.long_cycle_completed,
            },
        );
        o = o + 1;
        if o < HEATMAP_DAYS {
            date = prev_day(date);
        }
    }
    let ghost revfull = rev@;
    let mut heatmap: Vec<HeatmapDay> = Vec::new();
    while rev.len() > 0
        invariant
            rev@ == revfull.subrange(0, rev@.len() as int),
            revfull.len() == HEATMAP_DAYS as int,
            heatmap@.len() + rev@.len() == HEATMAP_DAYS as int,
            forall|i: int|
                0 <= i < heatmap@.len() ==> #[trigger] heatmap@[i] == revfull[HEATMAP_DAYS - 1 - i],
        decreases rev@.len(),
    {
        let ghost rev_before = rev@;
        match rev.pop() {
            Some(x) => {
                heatmap.push(x);
            },
            None => {
                proof {
                    assert(false);
                }
            },
        }
        proof {
            assert(rev@ =~= revfull.subrange(0, rev@.len() as int));
        }
    }
    heatmap
}

} // verus!
