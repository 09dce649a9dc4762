use crate::locale::spec_normalize_locale;
use crate::timer::{
    ms_in_range, phase_duration_ms, runtime_input_ok, spec_complete,
    spec_current_remaining, spec_phase_duration,
    spec_reconstruct, spec_runtime_state, spec_sanitize_ms, spec_snapshot, st_wf, CompletionMeta,
    Phase, RuntimeState, Settings, TimerSnapshot, TimerState, DEFAULT_FOCUS_MS,
    DEFAULT_LONG_BREAK_EVERY, DEFAULT_LONG_BREAK_MS, DEFAULT_SHORT_BREAK_MS,
};
use vstd::prelude::*;

verus! {

/// What one background tick decided: nothing to do, a running countdown worth
/// announcing, or a phase completion together with the runtime fields to
/// persist and the transition to announce.
#[verifier::ext_equal]
pub enum TickOutcome {
    NotRunning,
    Running(TimerSnapshot),
    Completed { snapshot: TimerSnapshot, runtime_state: RuntimeState, completion: CompletionMeta },
}

/// The timer engine proper: the live timer state behind the command surface.
/// The surrounding shell owns the clock, the exclusive-access guard and all
/// persistence; every operation takes the clock reading as an argument and
/// hands back whatever must be persisted or announced.
#[verifier::ext_equal]
pub struct TimerEngine {
    pub state: TimerState,
}

/// The state after starting or resuming a paused timer at clock reading
/// `now`: the remainder is revived (or reloaded from the phase duration if it
/// had run out) and the deadline set that far past `now`.
pub open spec fn spec_start(st: TimerState, now: int) -> TimerState {
    let rem: int = if st.remaining_ms > 0 {
        st.remaining_ms as int
    } else {
        spec_phase_duration(st.phase, st.settings)
    };
    (TimerState {
        phase: st.phase,
        is_running: true,
        cycle_count: st.cycle_count,
        end_at_ms: Some((now + rem) as i64),
        remaining_ms: rem as i64,
        settings: st.settings,
    })
}

/// The state after a reset: back to a paused focus phase at its full
/// configured duration with a cleared cycle count.
pub open spec fn spec_reset(st: TimerState) -> TimerState {
    (TimerState {
        phase: Phase::Focus,
        is_running: false,
        cycle_count: 0,
        end_at_ms: None,
        remaining_ms: st.settings.focus_ms,
        settings: st.settings,
    })
}

/// The state after replacing the settings by `sane` at clock reading `now`: a
/// live countdown keeps its elapsed-adjusted remainder and gets a fresh
/// deadline, a paused timer reloads the new phase duration.
pub open spec fn spec_update_settings(st: TimerState, sane: Settings, now: int) -> TimerState {
    if st.is_running {
        let rem = spec_current_remaining(st, now);
        (TimerState {
            phase: st.phase,
            is_running: true,
            cycle_count: st.cycle_count,
            end_at_ms: Some((now + rem) as i64),
            remaining_ms: rem as i64,
            settings: sane,
        })
    } else {
        (TimerState {
            phase: st.phase,
            is_running: false,
            cycle_count: st.cycle_count,
            end_at_ms: None,
            remaining_ms: spec_phase_duration(st.phase, sane) as i64,
            settings: sane,
        })
    }
}

impl TimerEngine {
    /// Builds the engine from whatever the shell loaded: raw stored settings
    /// (healed here) and the optional persisted runtime, reconciled against
    /// the clock reading `now`.
    pub fn new(
        settings: Option<Settings>,
        runtime_state: Option<RuntimeState>,
        now: i64,
    ) -> (engine: TimerEngine)
        requires
            match settings {
                Some(s) => ms_in_range(s.focus_ms as int) && ms_in_range(s.short_break_ms as int)
                    && ms_in_range(s.long_break_ms as int),
                None => true,
            },
            runtime_input_ok(runtime_state, now as int),
            0 <= now <= 0x800_0000_0000_0000,
        ensures
            st_wf(engine.state),
            engine.state == spec_reconstruct(engine.state.settings, runtime_state, now as int),
            match settings {
                Some(s) => {
                    &&& engine.state.settings.focus_ms == spec_sanitize_ms(
                        s.focus_ms as int,
                        DEFAULT_FOCUS_MS as int,
                    )
                    &&& engine.state.settings.short_break_ms == spec_sanitize_ms(
                        s.short_break_ms as int,
                        DEFAULT_SHORT_BREAK_MS as int,
                    )
                    &&& engine.state.settings.long_break_ms == spec_sanitize_ms(
                        s.long_break_ms as int,
                        DEFAULT_LONG_BREAK_MS as int,
                    )
                    &&& engine.state.settings.long_break_every == if s.long_break_every == 0 {
                        DEFAULT_LONG_BREAK_EVERY
                    } else {
                        s.long_break_every
                    }
                    &&& engine.state.settings.notify_enabled == s.notify_enabled
                    &&& engine.state.settings.sound_enabled == s.sound_enabled
                    &&& engine.state.settings.locale@ == spec_normalize_locale(s.locale@)
                },
                None => {
                    &&& engine.state.settings.focus_ms == DEFAULT_FOCUS_MS
                    &&& engine.state.settings.short_break_ms == DEFAULT_SHORT_BREAK_MS
                    &&& engine.state.settings.long_break_ms == DEFAULT_LONG_BREAK_MS
                    &&& engine.state.settings.long_break_every == DEFAULT_LONG_BREAK_EVERY
                    &&& engine.state.settings.notify_enabled
                    &&& engine.state.settings.sound_enabled
                    &&& engine.state.settings.locale@ == "en-US"@
                },
            },
    {
        let sane = match settings {
            Some(s) => s.sanitized(),
            None => Settings::default(),
        };
        let state = TimerState::from_storage_at(sane, runtime_state, now);
        TimerEngine { state }
    }

    /// A read-only snapshot at clock reading `now`; nothing changes and
    /// nothing needs persisting.
    pub fn get_state(&self, now: i64) -> (r: TimerSnapshot)
        requires
            st_wf(self.state),
            0 <= now <= 0x800_0000_0000_0000,
        ensures
            r == spec_snapshot(self.state, now as int),
    {
        self.state.snapshot(now)
    }

    /// Starts or resumes the countdown. Calling this while already running
    /// changes nothing — not even the deadline — and returns the snapshot the
    /// caller would have seen before the call; nothing needs persisting then.
    pub fn run_or_resume(&mut self, now: i64) -> (r: (TimerSnapshot, Option<RuntimeState>))
        requires
            st_wf(old(self).state),
            0 <= now <= 0x800_0000_0000_0000,
        ensures
            st_wf(final(self).state),
            old(self).state.is_running ==> {
                &&& *final(self) == *old(self)
                &&& r.0 == spec_snapshot(old(self).state, now as int)
                &&& r.1 is None
            },
            !old(self).state.is_running ==> {
                &&& final(self).state == spec_start(old(self).state, now as int)
                &&& r.0 == spec_snapshot(final(self).state, now as int)
                &&& r.1 == Some(spec_runtime_state(final(self).state, now as int))
            },
    {
        if self.state.is_running {
            return (self.state.snapshot(now), None);
        }
        let remaining = if self.state.remaining_ms > 0 {
            self.state.remaining_ms
        } else {
            phase_duration_ms(self.state.phase, &self.state.settings)
        };
        self.state.remaining_ms = remaining;
        self.state.end_at_ms = Some(now + remaining);
        self.state.is_running = true;
        proof {
            assert(self.state =~= spec_start(old(self).state, now as int));
        }
        (self.state.snapshot(now), Some(self.state.to_runtime_state(now)))
    }

    /// `start` and `resume` share one behavior; see `run_or_resume`.
    pub fn start(&mut self, now: i64) -> (r: (TimerSnapshot, Option<RuntimeState>))
        requires
            st_wf(old(self).state),
            0 <= now <= 0x800_0000_0000_0000,
        ensures
            st_wf(final(self).state),
            old(self).state.is_running ==> *final(self) == *old(self) && r.0 == spec_snapshot(
                old(self).state,
                now as int,
            ) && r.1 is None,
            !old(self).state.is_running ==> final(self).state == spec_start(
                old(self).state,
                now as int,
            ) && r.0 == spec_snapshot(final(self).state, now as int) && r.1 == Some(
                spec_runtime_state(final(self).state, now as int),
            ),
    {
        self.run_or_resume(now)
    }

    /// `start` and `resume` share one behavior; see `run_or_resume`.
    pub fn resume(&mut self, now: i64) -> (r: (TimerSnapshot, Option<RuntimeState>))
        requires
            st_wf(old(self).state),
            0 <= now <= 0x800_0000_0000_0000,
        ensures
            st_wf(final(self).state),
            old(self).state.is_running ==> *final(self) == *old(self) && r.0 == spec_snapshot(
                old(self).state,
                now as int,
            ) && r.1 is None,
            !old(self).state.is_running ==> final(self).state == spec_start(
                old(self).state,
                now as int,
            ) && r.0 == spec_snapshot(final(self).state, now as int) && r.1 == Some(
                spec_runtime_state(final(self).state, now as int),
            ),
    {
        self.run_or_resume(now)
    }

    /// Forces the timer back to a paused focus phase with a cleared cycle
    /// count; the returned runtime fields must be persisted.
    pub fn reset(&mut self, now: i64) -> (r: (TimerSnapshot, RuntimeState))
        requires
            st_wf(old(self).state),
            0 <= now <= 0x800_0000_0000_0000,
        ensures
            st_wf(final(self).state),
            final(self).state == spec_reset(old(self).state),
            r.0 == spec_snapshot(final(self).state, now as int),
            r.1 == spec_runtime_state(final(self).state, now as int),
    {
        self.state.phase = Phase::Focus;
        self.state.is_running = false;
        self.state.cycle_count = 0;
        self.state.end_at_ms = None;
        self.state.remaining_ms = self.state.settings.focus_ms;
        proof {
            assert(self.state =~= spec_reset(old(self).state));
        }
        (self.state.snapshot(now), self.state.to_runtime_state(now))
    }

    /// Replaces the settings after healing them. A live countdown keeps its
    /// elapsed-adjusted remaining time (the deadline is recomputed so the
    /// countdown is neither skipped nor reset); a paused timer reloads the new
    /// phase duration. Both the returned settings and runtime fields must be
    /// persisted.
    pub fn update_settings(
        &mut self,
        settings: Settings,
        now: i64,
    ) -> (r: (TimerSnapshot, Settings, RuntimeState))
        requires
            st_wf(old(self).state),
            ms_in_range(settings.focus_ms as int),
            ms_in_range(settings.short_break_ms as int),
            ms_in_range(settings.long_break_ms as int),
            0 <= now <= 0x800_0000_0000_0000,
        ensures
            st_wf(final(self).state),
            final(self).state == spec_update_settings(
                old(self).state,
                final(self).state.settings,
                now as int,
            ),
            final(self).state.settings.focus_ms == spec_sanitize_ms(
                settings.focus_ms as int,
                DEFAULT_FOCUS_MS as int,
            ),
            final(self).state.settings.short_break_ms == spec_sanitize_ms(
                settings.short_break_ms as int,
                DEFAULT_SHORT_BREAK_MS as int,
            ),
            final(self).state.settings.long_break_ms == spec_sanitize_ms(
                settings.long_break_ms as int,
                DEFAULT_LONG_BREAK_MS as int,
            ),
            final(self).state.settings.long_break_every == if settings.long_break_every == 0 {
                DEFAULT_LONG_BREAK_EVERY
            } else {
                settings.long_break_every
            },
            final(self).state.settings.notify_enabled == settings.notify_enabled,
            final(self).state.settings.sound_enabled == settings.sound_enabled,
            final(self).state.settings.locale@ == spec_normalize_locale(settings.locale@),
            r.0 == spec_snapshot(final(self).state, now as int),
            r.1 == final(self).state.settings,
            r.2 == spec_runtime_state(final(self).state, now as int),
    {
        let next_settings = settings.sanitized();
        if self.state.is_running {
            let remaining = self.state.current_remaining_ms(now);
            self.state.settings = next_settings;
            self.state.end_at_ms = Some(now + remaining);
            self.state.remaining_ms = remaining;
        } else {
            self.state.settings = next_settings;
            self.state.remaining_ms = phase_duration_ms(self.state.phase, &self.state.settings);
            self.state.end_at_ms = None;
        }
        proof {
            assert(self.state =~= spec_update_settings(
                old(self).state,
                self.state.settings,
                now as int,
            ));
        }
        (
            self.state.snapshot(now),
            self.state.settings.duplicate(),
            self.state.to_runtime_state(now),
        )
    }

    /// One background tick at clock reading `now`: a paused timer is left
    /// alone, a live countdown yields a fresh snapshot, and a countdown that
    /// has run out completes exactly one phase.
    pub fn handle_tick(&mut self, now: i64) -> (r: TickOutcome)
        requires
            st_wf(old(self).state),
            0 <= now <= 0x800_0000_0000_0000,
            (old(self).state.is_running && old(self).state.phase is Focus
                && spec_current_remaining(old(self).state, now as int) <= 0) ==> old(
                self,
            ).state.cycle_count < u32::MAX,
        ensures
            st_wf(final(self).state),
            !old(self).state.is_running ==> *final(self) == *old(self) && r
                == TickOutcome::NotRunning,
            (old(self).state.is_running && spec_current_remaining(old(self).state, now as int)
                > 0) ==> {
                &&& final(self).state == (TimerState {
                    remaining_ms: spec_current_remaining(old(self).state, now as int) as i64,
                    ..old(self).state
                })
                &&& r == TickOutcome::Running(spec_snapshot(final(self).state, now as int))
            },
            (old(self).state.is_running && spec_current_remaining(old(self).state, now as int)
                <= 0) ==> {
                &&& final(self).state == spec_complete(old(self).state)
                &&& r matches TickOutcome::Completed { snapshot, runtime_state, completion } && {
                    &&& snapshot == spec_snapshot(final(self).state, now as int)
                    &&& runtime_state == spec_runtime_state(final(self).state, now as int)
                    &&& completion.finished_phase == old(self).state.phase
                    &&& completion.next_phase == final(self).state.phase
                    &&& completion.notify_enabled == old(self).state.settings.notify_enabled
                    &&& completion.sound_enabled == old(self).state.settings.sound_enabled
                    &&& completion.locale == old(self).state.settings.locale
                }
            },
    {
        if !self.state.is_running {
            return TickOutcome::NotRunning;
        }
        let remaining = self.state.current_remaining_ms(now);
        if remaining > 0 {
            self.state.remaining_ms = remaining;
            proof {
                assert(self.state =~= (TimerState {
                    remaining_ms: spec_current_remaining(old(self).state, now as int) as i64,
                    ..old(self).state
                }));
            }
            TickOutcome::Running(self.state.snapshot(now))
        } else {
            let completion = self.state.complete_current_phase();
            let snapshot = self.state.snapshot(now);
            let runtime_state = self.state.to_runtime_state(now);
            TickOutcome::Completed { snapshot, runtime_state, completion }
        }
    }
}

} // verus!
