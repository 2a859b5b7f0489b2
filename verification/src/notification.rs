//! The notifications shown when a session ends: that its timer finished,
//! and that the daily focus goal was reached.

use vstd::prelude::*;
use crate::config::Preset;
use crate::session::{SessionType, next_session_type, session_name, session_seconds};
use crate::state::TimerState;
use crate::text::{concat_str, decimal, decimal_string};

verus! {

/// A desktop notification.
pub struct Note {
    pub summary: String,
    pub body: String,
}

/// The summary of the notification that a session's timer finished.
pub open spec fn finished_summary(s: TimerState) -> Seq<char> {
    "Timer for "@ + session_name(s.session_type) + " finished"@
}

/// The body of the notification that a session's timer finished: its
/// length in minutes and the session that comes next.
pub open spec fn finished_body(s: TimerState, p: Preset) -> Seq<char> {
    "Congrulations in completing timer for "@ + decimal(session_seconds(s.session_type, p) / 60)
        + " minutes, Now it's time for "@ + session_name(
        next_session_type(s.session_type, s.session_number, p),
    )
}

/// The body of the notification that the daily goal was reached.
pub open spec fn goal_body(goal_minutes: u64) -> Seq<char> {
    "Congrulations in completing your daily focus goal of "@ + decimal(goal_minutes as nat)
        + " minutes"@
}

/// Whether this session is the one that reached the daily goal: it is a
/// work session, the time focused today reaches the goal, and without this
/// session's time it would not.
pub open spec fn goal_reached_now(s: TimerState, p: Preset, goal: int, focused_today: int) -> bool {
    &&& focused_today >= goal
    &&& s.session_type == SessionType::Work
    &&& focused_today - (session_seconds(s.session_type, p) - s.time_remaining) < goal
}

/// The notifications to show for a session that ended in state `state`,
/// when `focused_today` seconds of work were focused today: none when
/// notifications are off; else that the timer finished, when it ran out,
/// and that the daily goal was reached, when this session reached it.
pub fn completion_notes(
    state: &TimerState,
    preset: &Preset,
    show_notifications: bool,
    daily_goal_minutes: u64,
    focused_today: i64,
) -> (notes: Vec<Note>)
    requires
        preset.fits(),
        show_notifications ==> daily_goal_minutes * 60 <= u64::MAX,
        show_notifications && state.session_type == SessionType::Work && focused_today >= (
        daily_goal_minutes * 60) as i64 ==> state.time_remaining <= session_seconds(
            state.session_type,
            *preset,
        ),
    ensures
        !show_notifications ==> notes@.len() == 0,
        show_notifications ==> {
            let goal = (daily_goal_minutes * 60) as i64;
            let finished = state.time_remaining == 0;
            let reached = goal_reached_now(*state, *preset, goal as int, focused_today as int);
            &&& notes@.len() == (if finished {
                1int
            } else {
                0
            }) + (if reached {
                1int
            } else {
                0
            })
            &&& finished ==> notes@[0].summary@ == finished_summary(*state) && notes@[0].body@
                == finished_body(*state, *preset)
            &&& reached ==> notes@.last().summary@ == "Daily Goal completed"@
                && notes@.last().body@ == goal_body(daily_goal_minutes)
        },
{
    let mut notes: Vec<Note> = Vec::new();
    if !show_notifications {
        return notes;
    }
    if state.time_remaining == 0 {
        let summary = {
            let mut t = concat_str("Timer for ", state.session_type.name());
            t.append(" finished");
            t
        };
        let minutes = decimal_string(state.session_type.get_time(preset) / 60);
        let mut body = concat_str("Congrulations in completing timer for ", minutes.as_str());
        body.append(" minutes, Now it's time for ");
        body.append(state.session_type.next(state.session_number, preset).name());
        notes.push(Note { summary, body });
    }
    let goal: i64 = (daily_goal_minutes * 60) as i64;
    if focused_today >= goal && state.session_type == SessionType::Work {
        let focused_this_session = (state.session_type.get_time(preset) - state.time_remaining) as i128;
        let completed_in_this_session = (focused_today as i128) - focused_this_session < goal as i128;
        if !completed_in_this_session {
            return notes;
        }
        let goal_text = decimal_string(daily_goal_minutes);
        let mut body = concat_str("Congrulations in completing your daily focus goal of ", goal_text.as_str());
        body.append(" minutes");
        notes.push(Note { summary: String::from_str("Daily Goal completed"), body });
    }
    notes
}

} // verus!
