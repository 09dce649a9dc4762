use crate::date::{
    date_valid, day_key, day_key_seq, day_number, day_number_of, lemma_day_key_roundtrip,
    parse_day_key, parse_day_key_spec, Date,
};
use vstd::prelude::*;

verus! {

pub const ANALYTICS_VERSION: u32 = 1;

pub const HEATMAP_DAYS: usize = 53 * 7;

pub const HISTORY_RETENTION_DAYS: i64 = 400;

pub const DEFAULT_DAILY_FOCUS_TARGET: u32 = 8;

pub const DEFAULT_DAILY_LONG_CYCLE_TARGET: u32 = 2;

pub const DEFAULT_WEEKLY_FOCUS_TARGET: u32 = 40;

pub const DEFAULT_WEEKLY_LONG_CYCLE_TARGET: u32 = 10;

pub const DEFAULT_MONTHLY_FOCUS_TARGET: u32 = 160;

pub const DEFAULT_MONTHLY_LONG_CYCLE_TARGET: u32 = 40;

/// Saturating per-day completion counters.
#[derive(Clone, Copy, PartialEq, Eq, Structural, Debug)]
pub struct DailyMetrics {
    pub focus_completed: u32,
    pub long_cycle_completed: u32,
}

impl Default for DailyMetrics {
    fn default() -> (r: DailyMetrics)
        ensures
            r == (DailyMetrics { focus_completed: 0, long_cycle_completed: 0 }),
    {
        DailyMetrics { focus_completed: 0, long_cycle_completed: 0 }
    }
}

#[derive(Clone, Copy, PartialEq, Eq, Structural, Debug)]
pub struct GoalPair {
    pub focus_target: u32,
    pub long_cycle_target: u32,
}

pub open spec fn spec_sanitize_target(value: u32, fallback: u32) -> u32 {
    if value == 0 {
        fallback
    } else {
        value
    }
}

/// Replaces a zero goal target by its built-in default; targets are never
/// rejected, only healed.
pub fn sanitize_target(value: u32, fallback: u32) -> (r: u32)
    ensures
        r == spec_sanitize_target(value, fallback),
{
    if value == 0 {
        fallback
    } else {
        value
    }
}

pub open spec fn spec_goal_pair_sanitized(p: GoalPair, fallback: GoalPair) -> GoalPair {
    (GoalPair {
        focus_target: spec_sanitize_target(p.focus_target, fallback.focus_target),
        long_cycle_target: spec_sanitize_target(p.long_cycle_target, fallback.long_cycle_target),
    })
}

impl GoalPair {
    /// Heals each zero target from the fallback pair and keeps positive
    /// targets untouched.
    pub fn sanitized(self, fallback: GoalPair) -> (r: GoalPair)
        ensures
            r == spec_goal_pair_sanitized(self, fallback),
    {
        GoalPair {
            focus_target: sanitize_target(self.focus_target, fallback.focus_target),
            long_cycle_target: sanitize_target(self.long_cycle_target, fallback.long_cycle_target),
        }
    }
}

#[derive(Clone, Copy, PartialEq, Eq, Structural, Debug)]
pub struct GoalSettings {
    pub daily: GoalPair,
    pub weekly: GoalPair,
    pub monthly: GoalPair,
}

pub open spec fn spec_default_goals() -> GoalSettings {
    (GoalSettings {
        daily: GoalPair { focus_target: 8, long_cycle_target: 2 },
        weekly: GoalPair { focus_target: 40, long_cycle_target: 10 },
        monthly: GoalPair { focus_target: 160, long_cycle_target: 40 },
    })
}

impl Default for GoalSettings {
    fn default() -> (r: GoalSettings)
        ensures
            r == spec_default_goals(),
    {
        GoalSettings {
            daily: GoalPair {
                focus_target: DEFAULT_DAILY_FOCUS_TARGET,
                long_cycle_target: DEFAULT_DAILY_LONG_CYCLE_TARGET,
            },
            weekly: GoalPair {
                focus_target: DEFAULT_WEEKLY_FOCUS_TARGET,
                long_cycle_target: DEFAULT_WEEKLY_LONG_CYCLE_TARGET,
            },
            monthly: GoalPair {
                focus_target: DEFAULT_MONTHLY_FOCUS_TARGET,
                long_cycle_target: DEFAULT_MONTHLY_LONG_CYCLE_TARGET,
            },
        }
    }
}

pub open spec fn spec_goals_sanitized(g: GoalSettings) -> GoalSettings {
    (GoalSettings {
        daily: spec_goal_pair_sanitized(g.daily, spec_default_goals().daily),
        weekly: spec_goal_pair_sanitized(g.weekly, spec_default_goals().weekly),
        monthly: spec_goal_pair_sanitized(g.monthly, spec_default_goals().monthly),
    })
}

impl GoalSettings {
    /// Heals every zero target from the built-in defaults of its period.
    pub fn sanitized(self) -> (r: GoalSettings)
        ensures
            r == spec_goals_sanitized(self),
    {
        let fallback = GoalSettings::default();
        GoalSettings {
            daily: self.daily.sanitized(fallback.daily),
            weekly: self.weekly.sanitized(fallback.weekly),
            monthly: self.monthly.sanitized(fallback.monthly),
        }
    }
}

/// One persisted day: the raw stored key (usually a `YYYY-MM-DD` day key, but
/// old saves may hold anything) and its counters.
#[derive(Clone, Debug)]
#[verifier::ext_equal]
pub struct DayEntry {
    pub key: String,
    pub metrics: DailyMetrics,
}

/// The persisted analytics document: a schema tag, the per-day counters and
/// the goal settings.
#[derive(Clone, Debug)]
#[verifier::ext_equal]
pub struct AnalyticsState {
    pub version: u32,
    pub daily: Vec<DayEntry>,
    pub goals: GoalSettings,
}

/// No two stored days share a key, so the mapping from keys to counters is
/// well defined.
pub open spec fn keys_unique(s: Seq<DayEntry>) -> bool {
    forall|i: int, j: int| 0 <= i < j < s.len() ==> s[i].key@ != s[j].key@
}

/// The mathematical mapping that a sequence of day entries stores.
pub open spec fn entries_map(s: Seq<DayEntry>) -> Map<Seq<char>, DailyMetrics>
    decreases s.len(),
{
    if s.len() == 0 {
        Map::empty()
    } else {
        entries_map(s.drop_last()).insert(s.last().key@, s.last().metrics)
    }
}

pub open spec fn analytics_wf(st: AnalyticsState) -> bool {
    keys_unique(st.daily@)
}

/// The counters stored under `k`, or zeroes for an absent day.
pub open spec fn metrics_at(m: Map<Seq<char>, DailyMetrics>, k: Seq<char>) -> DailyMetrics {
    if m.contains_key(k) {
        m[k]
    } else {
        (DailyMetrics { focus_completed: 0, long_cycle_completed: 0 })
    }
}

impl AnalyticsState {
    /// The mapping from stored keys to counters.
    pub open spec fn daily_map(self) -> Map<Seq<char>, DailyMetrics> {
        entries_map(self.daily@)
    }

    /// Heals a zero schema tag and every zero goal target; the stored days
    /// are kept as they are.
    pub fn sanitized(self) -> (r: AnalyticsState)
        ensures
            r.version == if self.version == 0 {
                ANALYTICS_VERSION
            } else {
                self.version
            },
            r.daily == self.daily,
            r.goals == spec_goals_sanitized(self.goals),
    {
        AnalyticsState {
            version: if self.version == 0 {
                ANALYTICS_VERSION
            } else {
                self.version
            },
            daily: self.daily,
            goals: self.goals.sanitized(),
        }
    }
}

pub proof fn lemma_entries_map_index(s: Seq<DayEntry>, i: int)
    requires
        keys_unique(s),
        0 <= i < s.len(),
    ensures
        entries_map(s).contains_key(s[i].key@),
        entries_map(s)[s[i].key@] == s[i].metrics,
    decreases s.len(),
{
    if i < s.len() - 1 {
        assert(keys_unique(s.drop_last()));
        lemma_entries_map_index(s.drop_last(), i);
    }
}

pub proof fn lemma_entries_map_absent(s: Seq<DayEntry>, k: Seq<char>)
    requires
        forall|i: int| 0 <= i < s.len() ==> s[i].key@ != k,
    ensures
        !entries_map(s).contains_key(k),
    decreases s.len(),
{
    if s.len() > 0 {
        lemma_entries_map_absent(s.drop_last(), k);
    }
}

proof fn lemma_entries_map_update(s: Seq<DayEntry>, i: int, e: DayEntry)
    requires
        keys_unique(s),
        0 <= i < s.len(),
        e.key@ == s[i].key@,
    ensures
        entries_map(s.update(i, e)) == entries_map(s).insert(e.key@, e.metrics),
        keys_unique(s.update(i, e)),
    decreases s.len(),
{
    let t = s.update(i, e);
    assert(forall|p: int, q: int| 0 <= p < q < t.len() ==> t[p].key@ != t[q].key@);
    if i == s.len() - 1 {
        assert(t.drop_last() =~= s.drop_last());
        assert(entries_map(s).insert(e.key@, e.metrics) =~= entries_map(s.drop_last()).insert(
            e.key@,
            e.metrics,
        ));
    } else {
        assert(keys_unique(s.drop_last()));
        lemma_entries_map_update(s.drop_last(), i, e);
        assert(t.drop_last() =~= s.drop_last().update(i, e));
        assert(t.last() == s.last());
        assert(s.last().key@ != e.key@);
        assert(entries_map(s.drop_last()).insert(e.key@, e.metrics).insert(
            s.last().key@,
            s.last().metrics,
        ) =~= entries_map(s.drop_last()).insert(s.last().key@, s.last().metrics).insert(
            e.key@,
            e.metrics,
        ));
    }
}

/// Index of the entry stored under `key`, if any.
fn find_entry(daily: &Vec<DayEntry>, key: &String) -> (r: Option<usize>)
    requires
        keys_unique(daily@),
    ensures
        match r {
            Some(i) => {
                &&& 0 <= i < daily@.len()
                &&& daily@[i as int].key@ == key@
                &&& entries_map(daily@).contains_key(key@)
                &&& entries_map(daily@)[key@] == daily@[i as int].metrics
            },
            None => !entries_map(daily@).contains_key(key@),
        },
{
    let mut i: usize = 0;
    while i < daily.len()
        invariant
            keys_unique(daily@),
            0 <= i <= daily@.len(),
            forall|j: int| 0 <= j < i ==> daily@[j].key@ != key@,
        decreases daily@.len() - i,
    {
        if daily[i].key == *key {
            proof {
                lemma_entries_map_index(daily@, i as int);
            }
            return Some(i);
        }
        i = i + 1;
    }
    proof {
        lemma_entries_map_absent(daily@, key@);
    }
    None
}

/// The counters stored under `key`, or zeroes for an absent day.
pub fn metrics_for_key(state: &AnalyticsState, key: &String) -> (r: DailyMetrics)
    requires
        analytics_wf(*state),
    ensures
        r == metrics_at(state.daily_map(), key@),
{
    match find_entry(&state.daily, key) {
        Some(i) => state.daily[i].metrics,
        None => DailyMetrics { focus_completed: 0, long_cycle_completed: 0 },
    }
}

/// The keys a prune with this horizon keeps: strict day keys whose date lies
/// within the retention window ending at `today`.
pub open spec fn keep_keys(today: Date, retention_days: int) -> Set<Seq<char>> {
    Set::new(
        |k: Seq<char>|
            match parse_day_key_spec(k) {
                Some(d) => day_number(d) >= day_number(today) - (retention_days - 1),
                None => false,
            },
    )
}

/// What pruning does to the stored mapping: nothing for a horizon under one
/// day, otherwise it restricts the mapping to the retention window and drops
/// malformed keys.
pub open spec fn spec_prune(
    m: Map<Seq<char>, DailyMetrics>,
    today: Date,
    retention_days: int,
) -> Map<Seq<char>, DailyMetrics> {
    if retention_days < 1 {
        m
    } else {
        m.restrict(keep_keys(today, retention_days))
    }
}

/// Drops every stored day whose key fails to parse or whose date fell out of
/// the retention window of `retention_days` days ending at `today`; a horizon
/// under one day prunes nothing.
pub fn prune_history(state: &mut AnalyticsState, today: Date, retention_days: i64)
    requires
        analytics_wf(*old(state)),
        date_valid(today),
    ensures
        analytics_wf(*final(state)),
        final(state).version == old(state).version,
        final(state).goals == old(state).goals,
        final(state).daily_map() == spec_prune(
            old(state).daily_map(),
            today,
            retention_days as int,
        ),
        retention_days < 1 ==> *final(state) == *old(state),
{
    if retention_days < 1 {
        return ;
    }
    let today_dn: i64 = day_number_of(today);
    let ghost keep = keep_keys(today, retention_days as int);
    let ghost orig = state.daily@;
    let mut kept: Vec<DayEntry> = Vec::new();
    let mut i: usize = 0;
    while i < state.daily.len()
        invariant
            state.daily@ == orig,
            keys_unique(orig),
            0 <= i <= orig.len(),
            retention_days >= 1,
            date_valid(today),
            today_dn == day_number(today),
            keep == keep_keys(today, retention_days as int),
            keys_unique(kept@),
            entries_map(kept@) == entries_map(orig.subrange(0, i as int)).restrict(keep),
            forall|p: int|
                0 <= p < kept@.len() ==> entries_map(orig.subrange(0, i as int)).contains_key(
                    #[trigger] kept@[p].key@,
                ),
        decreases orig.len() - i,
    {
        let ghost prefix = orig.subrange(0, i as int);
        let ghost extended = orig.subrange(0, i as int + 1);
        let entry = &state.daily[i];
        let keep_it = match parse_day_key(entry.key.as_str()) {
            Some(d) => {
                let dn = day_number_of(d);
                (dn as i128) + ((retention_days - 1) as i128) >= (today_dn as i128)
            },
            None => false,
        };
        proof {
            assert(extended.drop_last() =~= prefix);
            assert(forall|j: int| 0 <= j < prefix.len() ==> prefix[j].key@ != orig[i as int].key@);
            lemma_entries_map_absent(prefix, orig[i as int].key@);
            assert(keep_it == keep.contains(orig[i as int].key@));
        }
        if keep_it {
            let ghost kept_before = kept@;
            kept.push(DayEntry { key: entry.key.clone(), metrics: entry.metrics });
            proof {
                assert(kept@.drop_last() =~= kept_before);
                assert(entries_map(kept@) =~= entries_map(extended).restrict(keep));
            }
        } else {
            proof {
                assert(entries_map(kept@) =~= entries_map(extended).restrict(keep));
            }
        }
        i = i + 1;
    }
    proof {
        assert(orig.subrange(0, orig.len() as int) =~= orig);
    }
    state.daily = kept;
}

/// One focus completion applied to a day's counters: the focus counter grows
/// by one and, when the completion also closed a long cycle, so does the
/// long-cycle counter — both saturating, never wrapping.
pub open spec fn spec_bump(before: DailyMetrics, completed_long_cycle: bool) -> DailyMetrics {
    (DailyMetrics {
        focus_completed: if before.focus_completed == u32::MAX {
            u32::MAX
        } else {
            (before.focus_completed + 1) as u32
        },
        long_cycle_completed: if completed_long_cycle {
            if before.long_cycle_completed == u32::MAX {
                u32::MAX
            } else {
                (before.long_cycle_completed + 1) as u32
            }
        } else {
            before.long_cycle_completed
        },
    })
}

fn bump(before: DailyMetrics, completed_long_cycle: bool) -> (r: DailyMetrics)
    ensures
        r == spec_bump(before, completed_long_cycle),
{
    DailyMetrics {
        focus_completed: before.focus_completed.saturating_add(1),
        long_cycle_completed: if completed_long_cycle {
            before.long_cycle_completed.saturating_add(1)
        } else {
            before.long_cycle_completed
        },
    }
}

/// Counts one finished focus phase under today's key — both counters
/// saturating, so repeated calls can never wrap — and then prunes the history
/// to the built-in retention window.
pub fn record_focus_completion(state: &mut AnalyticsState, today: Date, completed_long_cycle: bool)
    requires
        analytics_wf(*old(state)),
        date_valid(today),
    ensures
        analytics_wf(*final(state)),
        final(state).version == old(state).version,
        final(state).goals == old(state).goals,
        final(state).daily_map() == spec_prune(
            old(state).daily_map().insert(
                day_key_seq(today),
                spec_bump(
                    metrics_at(old(state).daily_map(), day_key_seq(today)),
                    completed_long_cycle,
                ),
            ),
            today,
            HISTORY_RETENTION_DAYS as int,
        ),
        metrics_at(final(state).daily_map(), day_key_seq(today)) == spec_bump(
            metrics_at(old(state).daily_map(), day_key_seq(today)),
            completed_long_cycle,
        ),
{
    let key = day_key(today);
    match find_entry(&state.daily, &key) {
        Some(i) => {
            let before = state.daily[i].metrics;
            let updated = DayEntry { key, metrics: bump(before, completed_long_cycle) };
            proof {
                lemma_entries_map_update(state.daily@, i as int, updated);
            }
            state.daily[i] = updated;
        },
        None => {
            let fresh = DayEntry {
                key,
                metrics: bump(
                    DailyMetrics { focus_completed: 0, long_cycle_completed: 0 },
                    completed_long_cycle,
                ),
            };
            proof {
                assert forall|j: int|
                    0 <= j < state.daily@.len() implies state.daily@[j].key@ != fresh.key@ by {
                    lemma_entries_map_index(state.daily@, j);
                }
                assert(state.daily@.push(fresh).drop_last() =~= state.daily@);
            }
            state.daily.push(fresh);
        },
    }
    prune_history(state, today, HISTORY_RETENTION_DAYS);
    proof {
        lemma_day_key_roundtrip(today);
        assert(keep_keys(today, HISTORY_RETENTION_DAYS as int).contains(day_key_seq(today)));
    }
}

/// Replaces the stored goal settings by the given ones after healing every
/// zero target; the stored days and schema tag are untouched.
pub fn update_goals(state: &mut AnalyticsState, goals: GoalSettings)
    requires
        analytics_wf(*old(state)),
    ensures
        analytics_wf(*final(state)),
        final(state).version == old(state).version,
        final(state).daily == old(state).daily,
        final(state).goals == spec_goals_sanitized(goals),
{
    state.goals = goals.sanitized();
}

} // verus!
