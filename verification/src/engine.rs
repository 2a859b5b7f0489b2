//! The timer engine: the transitions of the timer state, and the effects
//! (history records, notifications, hooks, configuration writes) that each
//! transition asks the caller to carry out.

use vstd::prelude::*;
use crate::config::{Config, Preset, current_preset, find_preset, lemma_lookup_is_stored, lookup_preset};
use crate::session::{SessionType, next_session_type, session_seconds, two_digits, min_2_digit};
use crate::state::TimerState;
use crate::text::concat_str;

verus! {

/// Work that a transition leaves to its caller, in the order in which the
/// caller must do it.
pub enum Effect {
    /// A session ended in the given state: record it in the history and
    /// show the completion notification.
    SessionEnded(TimerState),
    /// Run the start hook of a session of this type.
    StartHook(SessionType),
    /// Run the pause hooks of a session of this type.
    PauseHook(SessionType),
    /// Run the resume hooks of a session of this type.
    ResumeHook(SessionType),
    /// Store the given name as the active preset in the configuration file.
    SetActivePreset(String),
    /// Stop the daemon.
    StopDaemon,
}

/// The number of the next work session: after the last work session of a
/// cycle the count starts again at one.
pub open spec fn next_number(n: u64, p: Preset) -> u64 {
    if p.sessions_before_long_break == n {
        1
    } else {
        (n + 1) as u64
    }
}

/// The next work session's number can be held in a `u64`.
pub open spec fn number_advances(n: u64, p: Preset) -> bool {
    n < u64::MAX || p.sessions_before_long_break == n
}

/// Moving on from `s` can count the next work session: the count only moves
/// when the next session is a work session.
pub open spec fn can_move_on(s: TimerState, p: Preset) -> bool {
    next_session_type(s.session_type, s.session_number, p) == SessionType::Work ==> number_advances(
        s.session_number,
        p,
    )
}

/// `s` with `t` seconds remaining.
pub open spec fn with_time(s: TimerState, t: u64) -> TimerState {
    TimerState { time_remaining: t, ..s }
}

/// The state after moving on to the next session: its type follows the
/// current one, a new work session advances the count, and the timer is set
/// to the new session's full length.
pub open spec fn after_next_session(s: TimerState, p: Preset) -> TimerState {
    let t = next_session_type(s.session_type, s.session_number, p);
    TimerState {
        time_remaining: session_seconds(t, p) as u64,
        session_type: t,
        session_number: if t == SessionType::Work {
            next_number(s.session_number, p)
        } else {
            s.session_number
        },
        ..s
    }
}

/// What moving on to the next session asks of the caller: record the
/// session that ended, then run the new session's start hook.
pub open spec fn next_session_effects(s: TimerState, p: Preset) -> Seq<Effect> {
    seq![Effect::SessionEnded(s), Effect::StartHook(after_next_session(s, p).session_type)]
}

/// The state after one second of a running session: the time goes down by a
/// second, and when it reaches zero the next session begins.
pub open spec fn after_tick(s: TimerState, p: Preset) -> TimerState {
    if s.time_remaining <= 1 {
        after_next_session(with_time(s, 0), p)
    } else {
        with_time(s, (s.time_remaining - 1) as u64)
    }
}

/// What a second of a running session asks of the caller: nothing, unless
/// the session ended; then what finishing a session asks.
pub open spec fn tick_effects(s: TimerState, p: Preset) -> Seq<Effect> {
    if s.time_remaining <= 1 {
        finish_effects(with_time(s, 0), p)
    } else {
        seq![]
    }
}

/// What finishing a session asks of the caller: what moving on asks; the
/// new session's start hook runs once.
pub open spec fn finish_effects(s: TimerState, p: Preset) -> Seq<Effect> {
    next_session_effects(s, p)
}

/// The state after starting a session of type `t`: the timer runs from the
/// full length of `t`. Switching to another type moves the count: a work
/// session advances it, a long break puts it at the end of the cycle, a
/// short break keeps it.
pub open spec fn after_start_specific(s: TimerState, t: SessionType, p: Preset) -> TimerState {
    TimerState {
        running: true,
        time_remaining: session_seconds(t, p) as u64,
        session_type: t,
        session_number: if s.session_type == t {
            s.session_number
        } else {
            match t {
                SessionType::Work => next_number(s.session_number, p),
                SessionType::LongBreak => p.sessions_before_long_break,
                SessionType::ShortBreak => s.session_number,
            }
        },
        ..s
    }
}

/// The state after a reset: paused, at the full length of its session.
pub open spec fn after_reset(s: TimerState, p: Preset) -> TimerState {
    TimerState {
        running: false,
        time_remaining: session_seconds(s.session_type, p) as u64,
        ..s
    }
}

/// The time left in the session as minutes and seconds, each with at least
/// two digits: `MM:SS`.
pub open spec fn time_text(secs: u64) -> Seq<char> {
    two_digits((secs / 60) as nat) + ":"@ + two_digits((secs % 60) as nat)
}

/// Advances a running session by one second; when its time runs out the
/// next session begins.
pub fn decrease_sec(state: &mut TimerState, preset: &Preset) -> (effects: Vec<Effect>)
    requires
        preset.fits(),
        old(state).time_remaining <= 1 ==> can_move_on(*old(state), *preset),
    ensures
        *final(state) == after_tick(*old(state), *preset),
        effects@ == tick_effects(*old(state), *preset),
{
    if state.time_remaining <= 1 {
        state.time_remaining = 0;
        return on_finish(state, preset);
    }
    state.time_remaining = state.time_remaining - 1;
    Vec::new()
}

/// Finishes the current session and begins the next one.
pub fn on_finish(state: &mut TimerState, preset: &Preset) -> (effects: Vec<Effect>)
    requires
        preset.fits(),
        can_move_on(*old(state), *preset),
    ensures
        *final(state) == after_next_session(*old(state), *preset),
        effects@ == finish_effects(*old(state), *preset),
{
    next_session(state, preset)
}

/// The time left in the session, as `MM:SS`.
pub fn render_time(state: &TimerState) -> (s: String)
    ensures
        s@ == time_text(state.time_remaining),
{
    let secs = state.time_remaining;
    let min_left = min_2_digit(secs / 60);
    let sec_to_show = min_2_digit(secs % 60);
    let mut s = concat_str(min_left.as_str(), ":");
    s.append(sec_to_show.as_str());
    s
}

/// Starts the current session from its full length.
pub fn start_session(state: &mut TimerState, preset: &Preset)
    requires
        preset.fits(),
    ensures
        *final(state) == (TimerState {
            running: true,
            time_remaining: session_seconds(old(state).session_type, *preset) as u64,
            ..*old(state)
        }),
{
    state.time_remaining = state.session_type.get_time(preset);
    state.running = true;
}

/// Starts a session of the given type from its full length.
pub fn start_specific_session(state: &mut TimerState, session_type: SessionType, preset: &Preset)
    -> (effects: Vec<Effect>)
    requires
        preset.fits(),
        old(state).session_type != session_type && session_type == SessionType::Work
            ==> number_advances(old(state).session_number, *preset),
    ensures
        *final(state) == after_start_specific(*old(state), session_type, *preset),
        effects@ == seq![Effect::StartHook(session_type)],
{
    let is_current_session = state.session_type == session_type;
    state.session_type = session_type;
    state.time_remaining = session_type.get_time(preset);
    state.running = true;
    let mut effects = Vec::new();
    effects.push(Effect::StartHook(session_type));
    if !is_current_session {
        state.session_number = match session_type {
            SessionType::Work => get_next_session_number(state.session_number, preset),
            SessionType::LongBreak => preset.sessions_before_long_break,
            SessionType::ShortBreak => state.session_number,
        };
    }
    effects
}

/// Pauses the current session and puts it back at its full length.
pub fn reset_session(state: &mut TimerState, preset: &Preset)
    requires
        preset.fits(),
    ensures
        *final(state) == after_reset(*old(state), *preset),
{
    state.running = false;
    state.time_remaining = state.session_type.get_time(preset);
}

/// The effects are the one write of `name` as the active preset.
pub open spec fn sets_active_preset(effects: Seq<Effect>, name: Seq<char>) -> bool {
    effects.len() == 1 && match effects[0] {
        Effect::SetActivePreset(n) => n@ == name,
        _ => false,
    }
}

/// The message of a preset selection that names no preset.
pub open spec fn preset_not_found(name: Seq<char>) -> Seq<char> {
    "Preset "@ + name + " not found"@
}

/// Makes the named preset the active one and starts over: the first work
/// session of a cycle, paused at the new preset's full work length.
/// Fails with a message when no preset has that name.
pub fn select_preset(state: &mut TimerState, preset_name: &str, config: &Config) -> (r: Result<
    Vec<Effect>,
    String,
>)
    requires
        config.wf(),
    ensures
        lookup_preset(config.presets@, preset_name@) matches Some(p) ==> {
            &&& r matches Ok(effects) && sets_active_preset(effects@, preset_name@)
            &&& *final(state) == (TimerState {
                running: false,
                time_remaining: session_seconds(SessionType::Work, p) as u64,
                session_type: SessionType::Work,
                session_number: 1,
                ..*old(state)
            })
        },
        lookup_preset(config.presets@, preset_name@) is None ==> {
            &&& r matches Err(msg) && msg@ == preset_not_found(preset_name@)
            &&& *final(state) == *old(state)
        },
{
    match find_preset(&config.presets, preset_name) {
        Some(p) => {
            proof {
                lemma_lookup_is_stored(config.presets@, preset_name@);
            }
            let mut effects = Vec::new();
            effects.push(Effect::SetActivePreset(String::from_str(preset_name)));
            state.session_number = 1;
            state.session_type = SessionType::Work;
            reset_session(state, &p);
            Ok(effects)
        },
        None => {
            let mut msg = concat_str("Preset ", preset_name);
            msg.append(" not found");
            Err(msg)
        },
    }
}

/// Moves on to the next session: asks for the session that ended to be
/// recorded, and for the new session's start hook.
pub fn next_session(state: &mut TimerState, preset: &Preset) -> (effects: Vec<Effect>)
    requires
        preset.fits(),
        can_move_on(*old(state), *preset),
    ensures
        *final(state) == after_next_session(*old(state), *preset),
        effects@ == next_session_effects(*old(state), *preset),
{
    let mut effects = Vec::new();
    effects.push(Effect::SessionEnded(state.copy_state()));
    state.session_type = state.session_type.next(state.session_number, preset);
    if state.session_type == SessionType::Work {
        state.session_number = get_next_session_number(state.session_number, preset);
    }
    effects.push(Effect::StartHook(state.session_type));
    state.time_remaining = state.session_type.get_time(preset);
    effects
}

/// The number of the work session after the one numbered
/// `crr_session_number`.
fn get_next_session_number(crr_session_number: u64, preset: &Preset) -> (n: u64)
    requires
        number_advances(crr_session_number, *preset),
    ensures
        n == next_number(crr_session_number, *preset),
{
    if preset.sessions_before_long_break == crr_session_number {
        1
    } else {
        crr_session_number + 1
    }
}

/// Adds `secs` seconds to the session in progress, and to the time added to
/// it so far.
pub fn add_time(state: &mut TimerState, secs: u64)
    requires
        old(state).time_remaining + secs <= u64::MAX,
        old(state).added_time + secs <= u64::MAX,
    ensures
        *final(state) == (TimerState {
            time_remaining: (old(state).time_remaining + secs) as u64,
            added_time: (old(state).added_time + secs) as u64,
            ..*old(state)
        }),
{
    state.time_remaining = state.time_remaining + secs;
    state.added_time = state.added_time + secs;
}

/// The state after moving on `k` times.
pub open spec fn run_sessions(s: TimerState, p: Preset, k: nat) -> TimerState
    decreases k,
{
    if k == 0 {
        s
    } else {
        after_next_session(run_sessions(s, p, (k - 1) as nat), p)
    }
}

/// The state after `k` seconds of a running session.
pub open spec fn run_ticks(s: TimerState, p: Preset, k: nat) -> TimerState
    decreases k,
{
    if k == 0 {
        s
    } else {
        after_tick(run_ticks(s, p, (k - 1) as nat), p)
    }
}

/// The session count stays within the cycle: when it lies between one and
/// the number of work sessions before a long break, it still does after
/// moving on, after a second of the timer, and after starting any session.
pub proof fn lemma_number_stays_in_cycle(s: TimerState, p: Preset, t: SessionType)
    requires
        1 <= s.session_number <= p.sessions_before_long_break,
    ensures
        1 <= after_next_session(s, p).session_number <= p.sessions_before_long_break,
        1 <= after_tick(s, p).session_number <= p.sessions_before_long_break,
        1 <= after_start_specific(s, t, p).session_number <= p.sessions_before_long_break,
{
}

/// A work session is followed by a break and then by the next work
/// session: the break is long exactly when the work session was the last
/// of its cycle, and the count then starts again at one.
pub proof fn lemma_work_break_work(s: TimerState, p: Preset)
    requires
        s.session_type == SessionType::Work,
        1 <= s.session_number <= p.sessions_before_long_break,
    ensures
        after_next_session(s, p).session_type == (if s.session_number
            == p.sessions_before_long_break {
            SessionType::LongBreak
        } else {
            SessionType::ShortBreak
        }),
        after_next_session(s, p).session_number == s.session_number,
        run_sessions(s, p, 2) == (TimerState {
            time_remaining: session_seconds(SessionType::Work, p) as u64,
            session_number: if s.session_number == p.sessions_before_long_break {
                1
            } else {
                (s.session_number + 1) as u64
            },
            ..s
        }),
{
    reveal_with_fuel(run_sessions, 3);
}

/// A whole cycle: from the first work session of a cycle, after
/// `2 * sessions_before_long_break` moves the timer is back at the first
/// work session, at its full length; after `2 * j` moves, for `j` short of
/// a whole cycle, it is at work session `j + 1`.
pub proof fn lemma_full_cycle(s: TimerState, p: Preset, j: nat)
    requires
        s.session_type == SessionType::Work,
        s.session_number == 1,
        p.sessions_before_long_break >= 1,
        s.time_remaining == session_seconds(SessionType::Work, p),
        j <= p.sessions_before_long_break,
    ensures
        j < p.sessions_before_long_break ==> run_sessions(s, p, 2 * j) == (TimerState {
            session_number: (j + 1) as u64,
            ..s
        }),
        j == p.sessions_before_long_break ==> run_sessions(s, p, 2 * j) == s,
    decreases j,
{
    if j > 0 {
        lemma_full_cycle(s, p, (j - 1) as nat);
        let prev = run_sessions(s, p, (2 * (j - 1)) as nat);
        lemma_work_break_work(prev, p);
        assert(run_sessions(s, p, 2 * j) == run_sessions(prev, p, 2)) by {
            assert(run_sessions(s, p, (2 * j - 1) as nat) == after_next_session(prev, p));
        }
    }
}

/// A running session of `T` seconds lasts exactly `T` seconds: each of the
/// first `T - 1` seconds takes one second off the clock, and the `T`-th
/// ends the session and begins the next one.
pub proof fn lemma_session_lasts_its_time(s: TimerState, p: Preset, k: nat)
    requires
        k <= s.time_remaining,
    ensures
        k < s.time_remaining ==> run_ticks(s, p, k) == with_time(s, (s.time_remaining - k) as u64),
        k == s.time_remaining && k >= 1 ==> run_ticks(s, p, k) == after_next_session(
            with_time(s, 0),
            p,
        ),
    decreases k,
{
    if k > 0 {
        lemma_session_lasts_its_time(s, p, (k - 1) as nat);
    }
}

/// Resetting twice is resetting once; starting the session in progress
/// again keeps the count and puts the timer at the session's full length.
pub proof fn lemma_reset_and_restart(s: TimerState, p: Preset)
    ensures
        after_reset(after_reset(s, p), p) == after_reset(s, p),
        after_start_specific(s, s.session_type, p).session_number == s.session_number,
        after_start_specific(s, s.session_type, p).time_remaining == session_seconds(
            s.session_type,
            p,
        ) as u64,
{
}

/// The seconds a session has run: its full length and the time added to
/// it, less the time remaining (never below zero).
pub open spec fn elapsed_seconds(s: TimerState, p: Preset) -> nat {
    let sum: int = session_seconds(s.session_type, p) + s.added_time;
    let total: int = if sum > u64::MAX {
        u64::MAX as int
    } else {
        sum
    };
    if total > s.time_remaining {
        (total - s.time_remaining) as nat
    } else {
        0
    }
}

/// The seconds the session in progress has run.
pub fn get_elapsed_time(state: &TimerState, preset: &Preset) -> (secs: u64)
    requires
        preset.fits(),
    ensures
        secs == elapsed_seconds(*state, *preset),
{
    let total = state.session_type.get_time(preset).saturating_add(state.added_time);
    total.saturating_sub(state.time_remaining)
}

/// What the history records of a finished session.
pub struct SessionRecord {
    pub planned_duration: i64,
    pub completed_duration: i64,
    pub session_type: SessionType,
    pub is_completed: bool,
    pub category: String,
}

/// The record of a session that ended in state `s`, or none for a session
/// shorter than twenty seconds. A session counts as completed when its
/// time ran out or it ran at least its planned length.
pub fn session_record(state: &TimerState, preset: &Preset) -> (r: Option<SessionRecord>)
    requires
        preset.fits(),
    ensures
        ({
            let completed = elapsed_seconds(*state, *preset) as i64;
            let planned = session_seconds(state.session_type, *preset) as i64;
            &&& completed < 20 ==> r is None
            &&& completed >= 20 ==> (r matches Some(rec) && rec.planned_duration == planned
                && rec.completed_duration == completed && rec.session_type == state.session_type
                && rec.is_completed == (state.time_remaining == 0 || completed >= planned)
                && rec.category == state.category)
        }),
{
    let completed_duration = get_elapsed_time(state, preset) as i64;
    if completed_duration < 20 {
        return None;
    }
    let planned_duration = state.session_type.get_time(preset) as i64;
    let is_completed = state.time_remaining == 0 || completed_duration >= planned_duration;
    Some(
        SessionRecord {
            planned_duration,
            completed_duration,
            session_type: state.session_type,
            is_completed,
            category: state.category.clone(),
        },
    )
}

} // verus!
