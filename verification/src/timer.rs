use crate::locale::{normalize_locale, spec_normalize_locale};
use vstd::prelude::*;

verus! {

pub const DEFAULT_FOCUS_MS: i64 = 25 * 60000;

pub const DEFAULT_SHORT_BREAK_MS: i64 = 5 * 60000;

pub const DEFAULT_LONG_BREAK_MS: i64 = 15 * 60000;

pub const DEFAULT_LONG_BREAK_EVERY: u32 = 4;

/// Largest magnitude accepted for externally supplied millisecond values
/// (clock readings, stored durations, stored deadlines). Sums of two such
/// values stay comfortably inside `i64`.
pub const MS_INPUT_LIMIT: i64 = 0x800_0000_0000_0000;

/// Largest magnitude any millisecond field of a live timer can reach.
pub const MS_STATE_LIMIT: i64 = 0x1000_0000_0000_0000;

pub open spec fn ms_in_range(x: int) -> bool {
    -0x800_0000_0000_0000 <= x <= 0x800_0000_0000_0000
}

#[derive(Clone, Copy, PartialEq, Eq, Structural, Debug)]
pub enum Phase {
    Focus,
    ShortBreak,
    LongBreak,
}

/// Timer configuration. After sanitization every duration is at least one
/// second and the long-break threshold is positive.
#[derive(Clone, Debug)]
#[verifier::ext_equal]
pub struct Settings {
    pub focus_ms: i64,
    pub short_break_ms: i64,
    pub long_break_ms: i64,
    pub long_break_every: u32,
    pub notify_enabled: bool,
    pub sound_enabled: bool,
    pub locale: String,
}

/// The persisted shape of the live timer.
#[derive(Clone, Debug)]
#[verifier::ext_equal]
pub struct RuntimeState {
    pub phase: Phase,
    pub is_running: bool,
    pub cycle_count: u32,
    pub end_at_ms: Option<i64>,
    pub remaining_ms: i64,
}

/// A read-only view of the timer with the remaining time recomputed against
/// the clock reading it was taken at.
#[derive(Clone, Debug)]
#[verifier::ext_equal]
pub struct TimerSnapshot {
    pub phase: Phase,
    pub is_running: bool,
    pub cycle_count: u32,
    pub end_at_ms: Option<i64>,
    pub remaining_ms: i64,
    pub settings: Settings,
}

/// What a completed phase asks the surrounding shell to do.
#[derive(Clone, Debug)]
#[verifier::ext_equal]
pub struct CompletionMeta {
    pub finished_phase: Phase,
    pub next_phase: Phase,
    pub notify_enabled: bool,
    pub sound_enabled: bool,
    pub locale: String,
}

/// The live timer: the persisted runtime fields plus the current settings.
#[derive(Clone, Debug)]
#[verifier::ext_equal]
pub struct TimerState {
    pub phase: Phase,
    pub is_running: bool,
    pub cycle_count: u32,
    pub end_at_ms: Option<i64>,
    pub remaining_ms: i64,
    pub settings: Settings,
}

pub open spec fn spec_sanitize_ms(ms: int, fallback: int) -> int {
    if ms < 1000 {
        fallback
    } else {
        ms
    }
}

/// Replaces a millisecond duration under one second by a fallback; such
/// values are treated as malformed configuration and silently healed.
pub fn sanitize_ms(ms: i64, fallback: i64) -> (r: i64)
    ensures
        r == spec_sanitize_ms(ms as int, fallback as int),
{
    if ms < 1000 {
        fallback
    } else {
        ms
    }
}

pub open spec fn spec_phase_duration(phase: Phase, settings: Settings) -> int {
    match phase {
        Phase::Focus => settings.focus_ms as int,
        Phase::ShortBreak => settings.short_break_ms as int,
        Phase::LongBreak => settings.long_break_ms as int,
    }
}

pub fn phase_duration_ms(phase: Phase, settings: &Settings) -> (r: i64)
    ensures
        r == spec_phase_duration(phase, *settings),
{
    match phase {
        Phase::Focus => settings.focus_ms,
        Phase::ShortBreak => settings.short_break_ms,
        Phase::LongBreak => settings.long_break_ms,
    }
}

/// Well-formed, sanitized settings whose durations a live timer can do
/// arithmetic on.
pub open spec fn settings_wf(s: Settings) -> bool {
    &&& 1000 <= s.focus_ms <= 0x800_0000_0000_0000
    &&& 1000 <= s.short_break_ms <= 0x800_0000_0000_0000
    &&& 1000 <= s.long_break_ms <= 0x800_0000_0000_0000
    &&& 1 <= s.long_break_every
}

impl Settings {
    /// A field-by-field copy.
    pub fn duplicate(&self) -> (r: Settings)
        ensures
            r == *self,
    {
        let r = Settings {
            focus_ms: self.focus_ms,
            short_break_ms: self.short_break_ms,
            long_break_ms: self.long_break_ms,
            long_break_every: self.long_break_every,
            notify_enabled: self.notify_enabled,
            sound_enabled: self.sound_enabled,
            locale: self.locale.clone(),
        };
        proof {
            assert(r =~= *self);
        }
        r
    }

    /// Heals every out-of-range field and leaves valid fields untouched:
    /// durations under one second and a zero long-break threshold fall back to
    /// their defaults, and the locale collapses to its bucket.
    pub fn sanitized(self) -> (r: Settings)
        ensures
            r.focus_ms == spec_sanitize_ms(self.focus_ms as int, DEFAULT_FOCUS_MS as int),
            r.short_break_ms == spec_sanitize_ms(
                self.short_break_ms as int,
                DEFAULT_SHORT_BREAK_MS as int,
            ),
            r.long_break_ms == spec_sanitize_ms(
                self.long_break_ms as int,
                DEFAULT_LONG_BREAK_MS as int,
            ),
            r.long_break_every == if self.long_break_every == 0 {
                DEFAULT_LONG_BREAK_EVERY
            } else {
                self.long_break_every
            },
            r.notify_enabled == self.notify_enabled,
            r.sound_enabled == self.sound_enabled,
            r.locale@ == spec_normalize_locale(self.locale@),
            ms_in_range(self.focus_ms as int) && ms_in_range(self.short_break_ms as int)
                && ms_in_range(self.long_break_ms as int) ==> settings_wf(r),
    {
        Settings {
            focus_ms: sanitize_ms(self.focus_ms, DEFAULT_FOCUS_MS),
            short_break_ms: sanitize_ms(self.short_break_ms, DEFAULT_SHORT_BREAK_MS),
            long_break_ms: sanitize_ms(self.long_break_ms, DEFAULT_LONG_BREAK_MS),
            long_break_every: if self.long_break_every == 0 {
                DEFAULT_LONG_BREAK_EVERY
            } else {
                self.long_break_every
            },
            notify_enabled: self.notify_enabled,
            sound_enabled: self.sound_enabled,
            locale: normalize_locale(self.locale.as_str()).to_owned(),
        }
    }
}

impl Default for Settings {
    /// The built-in configuration: 25/5/15 minute phases, a long break every
    /// fourth cycle, notifications and sound on, the default locale.
    fn default() -> (r: Settings)
        ensures
            r.focus_ms == DEFAULT_FOCUS_MS,
            r.short_break_ms == DEFAULT_SHORT_BREAK_MS,
            r.long_break_ms == DEFAULT_LONG_BREAK_MS,
            r.long_break_every == DEFAULT_LONG_BREAK_EVERY,
            r.notify_enabled,
            r.sound_enabled,
            r.locale@ == "en-US"@,
            settings_wf(r),
    {
        Settings {
            focus_ms: DEFAULT_FOCUS_MS,
            short_break_ms: DEFAULT_SHORT_BREAK_MS,
            long_break_ms: DEFAULT_LONG_BREAK_MS,
            long_break_every: DEFAULT_LONG_BREAK_EVERY,
            notify_enabled: true,
            sound_enabled: true,
            locale: "en-US".to_owned(),
        }
    }
}

/// Invariant of a live timer: sanitized settings, a non-negative remaining
/// time, and a deadline exactly while conceptually running, all within the
/// ranges the arithmetic needs.
pub open spec fn st_wf(st: TimerState) -> bool {
    &&& settings_wf(st.settings)
    &&& 0 <= st.remaining_ms
    &&& st.is_running ==> st.remaining_ms <= 0x1000_0000_0000_0000 && match st.end_at_ms {
        Some(e) => 0 < e <= 0x1000_0000_0000_0000,
        None => false,
    }
    &&& !st.is_running ==> st.remaining_ms <= 0x800_0000_0000_0000
}

/// The phase that follows a finished phase: after a focus phase whose
/// (already incremented) cycle count hits a multiple of the long-break
/// threshold comes a long break, after any other focus phase a short break,
/// and after any break the next focus phase.
pub open spec fn spec_next_phase(finished: Phase, cycle_after: int, every: int) -> Phase {
    match finished {
        Phase::Focus => if cycle_after > 0 && cycle_after % every == 0 {
            Phase::LongBreak
        } else {
            Phase::ShortBreak
        },
        Phase::ShortBreak => Phase::Focus,
        Phase::LongBreak => Phase::Focus,
    }
}

/// The state after completing the current phase: the cycle count grows by one
/// exactly when a focus phase finished, the next phase is loaded at its full
/// configured duration, and the timer stops.
pub open spec fn spec_complete(st: TimerState) -> TimerState {
    let cycle_after: int = if st.phase is Focus {
        st.cycle_count + 1
    } else {
        st.cycle_count as int
    };
    let next = spec_next_phase(st.phase, cycle_after, st.settings.long_break_every as int);
    (TimerState {
        phase: next,
        is_running: false,
        cycle_count: cycle_after as u32,
        end_at_ms: None,
        remaining_ms: spec_phase_duration(next, st.settings) as i64,
        settings: st.settings,
    })
}

/// Remaining time observed at clock reading `now`: against the deadline while
/// running, against the stored remainder otherwise, never negative.
pub open spec fn spec_current_remaining(st: TimerState, now: int) -> int {
    if st.is_running {
        match st.end_at_ms {
            Some(e) => if e - now > 0 {
                e - now
            } else {
                0
            },
            None => if st.remaining_ms > 0 {
                st.remaining_ms as int
            } else {
                0
            },
        }
    } else {
        if st.remaining_ms > 0 {
            st.remaining_ms as int
        } else {
            0
        }
    }
}

pub open spec fn spec_snapshot(st: TimerState, now: int) -> TimerSnapshot {
    (TimerSnapshot {
        phase: st.phase,
        is_running: st.is_running,
        cycle_count: st.cycle_count,
        end_at_ms: st.end_at_ms,
        remaining_ms: spec_current_remaining(st, now) as i64,
        settings: st.settings,
    })
}

pub open spec fn spec_runtime_state(st: TimerState, now: int) -> RuntimeState {
    (RuntimeState {
        phase: st.phase,
        is_running: st.is_running,
        cycle_count: st.cycle_count,
        end_at_ms: st.end_at_ms,
        remaining_ms: spec_current_remaining(st, now) as i64,
    })
}

/// The recovery rules for a persisted runtime: heal a non-positive remainder
/// from the phase's configured duration (a positive remainder is kept as it
/// was saved), apply at most one overdue phase transition, recompute the
/// remainder of a live deadline, and demote a running timer that lost its
/// deadline.
pub open spec fn spec_reconstruct(
    settings: Settings,
    runtime_state: Option<RuntimeState>,
    now: int,
) -> TimerState {
    let base = match runtime_state {
        Some(r) => (TimerState {
            phase: r.phase,
            is_running: r.is_running,
            cycle_count: r.cycle_count,
            end_at_ms: r.end_at_ms,
            remaining_ms: r.remaining_ms,
            settings,
        }),
        None => (TimerState {
            phase: Phase::Focus,
            is_running: false,
            cycle_count: 0,
            end_at_ms: None,
            remaining_ms: settings.focus_ms,
            settings,
        }),
    };
    let healed = if base.remaining_ms <= 0 {
        TimerState {
            remaining_ms: spec_phase_duration(base.phase, settings) as i64,
            ..base
        }
    } else {
        base
    };
    let settled = if healed.is_running {
        match healed.end_at_ms {
            Some(e) => if e <= now {
                spec_complete(healed)
            } else {
                TimerState { remaining_ms: (e - now) as i64, ..healed }
            },
            None => TimerState {
                is_running: false,
                remaining_ms: spec_phase_duration(healed.phase, settings) as i64,
                ..healed
            },
        }
    } else {
        healed
    };
    if !settled.is_running && settled.remaining_ms <= 0 {
        TimerState {
            remaining_ms: spec_phase_duration(settled.phase, settings) as i64,
            ..settled
        }
    } else {
        settled
    }
}

/// The input ranges under which a persisted runtime can be reconstructed
/// without overflow or an overflowing cycle counter.
pub open spec fn runtime_input_ok(runtime_state: Option<RuntimeState>, now: int) -> bool {
    match runtime_state {
        Some(r) => {
            &&& ms_in_range(r.remaining_ms as int)
            &&& match r.end_at_ms {
                Some(e) => ms_in_range(e as int),
                None => true,
            }
            &&& (r.is_running && r.phase is Focus && match r.end_at_ms {
                Some(e) => e <= now,
                None => false,
            }) ==> r.cycle_count < u32::MAX
        },
        None => true,
    }
}

impl TimerState {
    /// Completes the current phase in place and reports what the shell should
    /// announce about the transition.
    pub fn complete_current_phase(&mut self) -> (meta: CompletionMeta)
        requires
            settings_wf(old(self).settings),
            old(self).phase is Focus ==> old(self).cycle_count < u32::MAX,
        ensures
            *final(self) == spec_complete(*old(self)),
            st_wf(*final(self)),
            meta.finished_phase == old(self).phase,
            meta.next_phase == final(self).phase,
            meta.notify_enabled == old(self).settings.notify_enabled,
            meta.sound_enabled == old(self).settings.sound_enabled,
            meta.locale == old(self).settings.locale,
    {
        let finished_phase = self.phase;
        if matches!(finished_phase, Phase::Focus) {
            self.cycle_count = self.cycle_count + 1;
        }
        let next_phase = match finished_phase {
            Phase::Focus => {
                if self.cycle_count > 0 && self.cycle_count % self.settings.long_break_every == 0 {
                    Phase::LongBreak
                } else {
                    Phase::ShortBreak
                }
            },
            Phase::ShortBreak => Phase::Focus,
            Phase::LongBreak => Phase::Focus,
        };
        self.phase = next_phase;
        self.is_running = false;
        self.end_at_ms = None;
        self.remaining_ms = phase_duration_ms(self.phase, &self.settings);
        proof {
            assert(*self =~= spec_complete(*old(self)));
        }
        CompletionMeta {
            finished_phase,
            next_phase,
            notify_enabled: self.settings.notify_enabled,
            sound_enabled: self.settings.sound_enabled,
            locale: self.settings.locale.clone(),
        }
    }

    /// Rebuilds the live timer from sanitized settings and an optionally
    /// persisted runtime, reconciling elapsed time against the clock reading
    /// `now`. The result is a function of the arguments alone.
    pub fn from_storage_at(
        settings: Settings,
        runtime_state: Option<RuntimeState>,
        now: i64,
    ) -> (st: TimerState)
        requires
            settings_wf(settings),
            runtime_input_ok(runtime_state, now as int),
            0 <= now <= 0x800_0000_0000_0000,
        ensures
            st == spec_reconstruct(settings, runtime_state, now as int),
            st_wf(st),
            st.settings == settings,
    {
        let mut state = match runtime_state {
            Some(runtime) => TimerState {
                phase: runtime.phase,
                is_running: runtime.is_running,
                cycle_count: runtime.cycle_count,
                end_at_ms: runtime.end_at_ms,
                remaining_ms: runtime.remaining_ms,
                settings,
            },
            None => TimerState {
                phase: Phase::Focus,
                is_running: false,
                cycle_count: 0,
                end_at_ms: None,
                remaining_ms: settings.focus_ms,
                settings,
            },
        };
        if state.remaining_ms <= 0 {
            state.remaining_ms = phase_duration_ms(state.phase, &state.settings);
        }
        if state.is_running {
            match state.end_at_ms {
                Some(end_at) => {
                    if end_at <= now {
                        let _ = state.complete_current_phase();
                    } else {
                        state.remaining_ms = end_at - now;
                    }
                },
                None => {
                    state.is_running = false;
                    state.remaining_ms = phase_duration_ms(state.phase, &state.settings);
                },
            }
        }
        if !state.is_running && state.remaining_ms <= 0 {
            state.remaining_ms = phase_duration_ms(state.phase, &state.settings);
        }
        proof {
            assert(state =~= spec_reconstruct(state.settings, runtime_state, now as int));
        }
        state
    }

    /// Remaining time at clock reading `now`, clamped to zero.
    pub fn current_remaining_ms(&self, now: i64) -> (r: i64)
        requires
            st_wf(*self),
            0 <= now <= 0x800_0000_0000_0000,
        ensures
            r == spec_current_remaining(*self, now as int),
    {
        if self.is_running {
            match self.end_at_ms {
                Some(end_at) => {
                    let diff = end_at - now;
                    if diff > 0 {
                        diff
                    } else {
                        0
                    }
                },
                None => {
                    if self.remaining_ms > 0 {
                        self.remaining_ms
                    } else {
                        0
                    }
                },
            }
        } else {
            if self.remaining_ms > 0 {
                self.remaining_ms
            } else {
                0
            }
        }
    }

    /// A read-only snapshot at clock reading `now`.
    pub fn snapshot(&self, now: i64) -> (r: TimerSnapshot)
        requires
            st_wf(*self),
            0 <= now <= 0x800_0000_0000_0000,
        ensures
            r == spec_snapshot(*self, now as int),
    {
        let r = TimerSnapshot {
            phase: self.phase,
            is_running: self.is_running,
            cycle_count: self.cycle_count,
            end_at_ms: self.end_at_ms,
            remaining_ms: self.current_remaining_ms(now),
            settings: self.settings.duplicate(),
        };
        proof {
            assert(r =~= spec_snapshot(*self, now as int));
        }
        r
    }

    /// The persistable runtime fields at clock reading `now`.
    pub fn to_runtime_state(&self, now: i64) -> (r: RuntimeState)
        requires
            st_wf(*self),
            0 <= now <= 0x800_0000_0000_0000,
        ensures
            r == spec_runtime_state(*self, now as int),
    {
        let r = RuntimeState {
            phase: self.phase,
            is_running: self.is_running,
            cycle_count: self.cycle_count,
            end_at_ms: self.end_at_ms,
            remaining_ms: self.current_remaining_ms(now),
        };
        proof {
            assert(r =~= spec_runtime_state(*self, now as int));
        }
        r
    }
}

/// Reconstruction is pure: equal settings, equal persisted runtimes and equal
/// clock readings always yield the very same live timer.
pub proof fn lemma_reconstruct_deterministic(
    settings_a: Settings,
    runtime_a: Option<RuntimeState>,
    now_a: int,
    settings_b: Settings,
    runtime_b: Option<RuntimeState>,
    now_b: int,
)
    requires
        settings_a == settings_b,
        runtime_a == runtime_b,
        now_a == now_b,
    ensures
        spec_reconstruct(settings_a, runtime_a, now_a) == spec_reconstruct(
            settings_b,
            runtime_b,
            now_b,
        ),
{
}

} // verus!
