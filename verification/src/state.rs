//! The state of the timer, and the snapshot of it that travels between the
//! daemon and its clients.

use vstd::prelude::*;
use crate::config::Preset;
use crate::session::{SessionType, session_seconds};

verus! {

/// The state of the timer. Times are in whole seconds.
pub struct TimerState {
    pub running: bool,
    pub time_remaining: u64,
    pub session_type: SessionType,
    pub session_number: u64,
    pub added_time: u64,
    pub category: String,
}

/// A copy of the timer state, as sent from the daemon to its clients.
pub struct TimerSnapShot {
    pub running: bool,
    pub time_remaining: u64,
    pub session_type: SessionType,
    pub session_number: u64,
    pub added_time: u64,
    pub category: String,
}

/// The category of sessions for which none was given.
pub fn default_category() -> (s: String)
    ensures
        s@ == "General"@,
{
    String::from_str("General")
}

impl TimerState {
    /// The state the daemon starts in: the first work session of a cycle,
    /// paused at its full length.
    pub fn new(preset: &Preset, category: String) -> (s: TimerState)
        requires
            preset.fits(),
        ensures
            !s.running,
            s.time_remaining == session_seconds(SessionType::Work, *preset),
            s.session_type == SessionType::Work,
            s.session_number == 1,
            s.added_time == 0,
            s.category == category,
    {
        TimerState {
            running: false,
            time_remaining: SessionType::Work.get_time(preset),
            session_type: SessionType::Work,
            session_number: 1,
            added_time: 0,
            category,
        }
    }

    /// A copy of the state.
    pub fn copy_state(&self) -> (s: TimerState)
        ensures
            s == *self,
    {
        TimerState {
            running: self.running,
            time_remaining: self.time_remaining,
            session_type: self.session_type,
            session_number: self.session_number,
            added_time: self.added_time,
            category: self.category.clone(),
        }
    }

    /// The state that a snapshot records.
    pub fn from_snapshot(t: &TimerSnapShot) -> (s: TimerState)
        ensures
            s == state_of(*t),
    {
        TimerState {
            running: t.running,
            time_remaining: t.time_remaining,
            session_type: t.session_type,
            session_number: t.session_number,
            added_time: t.added_time,
            category: t.category.clone(),
        }
    }
}

impl TimerSnapShot {
    /// A snapshot of the state.
    pub fn from_state(t: &TimerState) -> (s: TimerSnapShot)
        ensures
            s == snapshot_of(*t),
    {
        TimerSnapShot {
            running: t.running,
            time_remaining: t.time_remaining,
            session_type: t.session_type,
            session_number: t.session_number,
            added_time: t.added_time,
            category: t.category.clone(),
        }
    }
}

/// The snapshot of a state: the same fields.
pub open spec fn snapshot_of(t: TimerState) -> TimerSnapShot {
    TimerSnapShot {
        running: t.running,
        time_remaining: t.time_remaining,
        session_type: t.session_type,
        session_number: t.session_number,
        added_time: t.added_time,
        category: t.category,
    }
}

/// The state a snapshot records: the same fields.
pub open spec fn state_of(t: TimerSnapShot) -> TimerState {
    TimerState {
        running: t.running,
        time_remaining: t.time_remaining,
        session_type: t.session_type,
        session_number: t.session_number,
        added_time: t.added_time,
        category: t.category,
    }
}

/// Restoring the snapshot of a state gives the state back, and taking the
/// snapshot of a restored state gives the snapshot back.
pub proof fn lemma_snapshot_round_trip(t: TimerState, snap: TimerSnapShot)
    ensures
        state_of(snapshot_of(t)) == t,
        snapshot_of(state_of(snap)) == snap,
{
}

} // verus!
