//! The status that the waybar module shows: the classes that style it and
//! the text of its tooltip.

use vstd::prelude::*;
use crate::config::Preset;
use crate::durations::{duration_text, render_duration};
use crate::engine::{render_time, time_text};
use crate::session::{SessionType, next_session_type, session_name, session_seconds};
use crate::state::TimerState;
use crate::text::{concat_str, decimal, decimal_string};

verus! {

/// The module's `alt` name for a session type.
pub open spec fn alt_base(t: SessionType) -> Seq<char> {
    match t {
        SessionType::Work => "work"@,
        SessionType::ShortBreak => "short-break"@,
        SessionType::LongBreak => "long-break"@,
    }
}

/// The module's `alt` name and CSS classes: the session type's name, with
/// `-paused` appended to the name and a `paused` class when the timer is
/// paused.
pub fn status_classes(session_type: SessionType, running: bool) -> (r: (String, Vec<String>))
    ensures
        running ==> r.0@ == alt_base(session_type),
        !running ==> r.0@ == alt_base(session_type) + "-paused"@,
        running ==> r.1@.len() == 1 && r.1@[0]@ == alt_base(session_type),
        !running ==> r.1@.len() == 2 && r.1@[0]@ == alt_base(session_type) && r.1@[1]@
            == "paused"@,
{
    let base = match session_type {
        SessionType::Work => "work",
        SessionType::ShortBreak => "short-break",
        SessionType::LongBreak => "long-break",
    };
    let mut class: Vec<String> = Vec::new();
    class.push(String::from_str(base));
    if !running {
        class.push(String::from_str("paused"));
        (concat_str(base, "-paused"), class)
    } else {
        (String::from_str(base), class)
    }
}

/// "day" for a streak of at most one day, "days" beyond.
pub fn streak_unit(current_streak: i32) -> (s: &'static str)
    ensures
        current_streak <= 1 ==> s@ == "day"@,
        current_streak > 1 ==> s@ == "days"@,
{
    if current_streak <= 1 {
        "day"
    } else {
        "days"
    }
}

/// The work sessions of the cycle completed before the current one.
pub fn completed_sessions(session_number: u64) -> (n: u64)
    requires
        session_number >= 1,
    ensures
        n == session_number - 1,
{
    session_number - 1
}

/// A category's progress towards its goal: `focused / target`.
pub fn category_progress(focused: &str, target: &str) -> (s: String)
    ensures
        s@ == focused@ + " / "@ + target@,
{
    let mut s = concat_str(focused, " / ");
    s.append(target);
    s
}

/// The tooltip's text.
pub open spec fn tooltip_text(
    current_session: Seq<char>,
    category: Seq<char>,
    session_n: u64,
    total_sessions: u64,
    next_session_name: Seq<char>,
    time_for_next_session: Seq<char>,
    completed_today: Seq<char>,
    category_progress: Seq<char>,
    current_streak: u32,
    streak_unit: Seq<char>,
) -> Seq<char> {
    current_session + " Session · "@ + category + ",\nCycle "@ + decimal(session_n as nat) + "/"@
        + decimal(total_sessions as nat) + "\n\nNext Session: "@ + next_session_name + " ("@
        + time_for_next_session + "),\n\nFocused today: "@ + completed_today + ",\n"@ + category
        + ": "@ + category_progress + ",\nCurrent Streak: "@ + decimal(current_streak as nat) + " "@
        + streak_unit + "\n"@
}

/// Writes the tooltip: the session and its category, the place in the
/// cycle, the next session and its length, the time focused today, the
/// category's progress and the streak.
pub fn tooltip(
    current_session: &str,
    category: &str,
    session_n: u64,
    total_sessions: u64,
    next_session_name: &str,
    time_for_next_session: &str,
    completed_today: &str,
    category_progress: &str,
    current_streak: u32,
    streak_unit: &str,
) -> (s: String)
    ensures
        s@ == tooltip_text(
            current_session@,
            category@,
            session_n,
            total_sessions,
            next_session_name@,
            time_for_next_session@,
            completed_today@,
            category_progress@,
            current_streak,
            streak_unit@,
        ),
{
    let mut s = concat_str(current_session, " Session · ");
    s.append(category);
    s.append(",\nCycle ");
    let n = decimal_string(session_n);
    s.append(n.as_str());
    s.append("/");
    let t = decimal_string(total_sessions);
    s.append(t.as_str());
    s.append("\n\nNext Session: ");
    s.append(next_session_name);
    s.append(" (");
    s.append(time_for_next_session);
    s.append("),\n\nFocused today: ");
    s.append(completed_today);
    s.append(",\n");
    s.append(category);
    s.append(": ");
    s.append(category_progress);
    s.append(",\nCurrent Streak: ");
    let k = decimal_string(current_streak as u64);
    s.append(k.as_str());
    s.append(" ");
    s.append(streak_unit);
    s.append("\n");
    s
}

/// What the waybar module shows, but for the share of the session that has
/// passed.
pub struct WaybarStatus {
    pub text: String,
    pub alt: String,
    pub class: Vec<String>,
    pub tooltip: String,
    pub session: String,
    pub next_session: String,
    pub sessions_today: usize,
    pub focused_today: String,
    pub daily_goal: String,
    pub current_streak: usize,
    pub work_sessions_before_long_break: u64,
    pub completed_sessions: u64,
    pub category: String,
    pub category_progress: String,
}

/// A count for the module: the count itself where a `usize` holds it, else
/// zero.
pub open spec fn module_count(n: int) -> usize {
    if 0 <= n <= usize::MAX {
        n as usize
    } else {
        0
    }
}

/// The count where a `usize` holds it, else zero.
fn to_count(n: i64) -> (r: usize)
    ensures
        r == module_count(n as int),
{
    if n < 0 {
        0
    } else if n as u64 > usize::MAX as u64 {
        0
    } else {
        n as usize
    }
}

/// The module's status for the timer in state `s` under preset `p`, with
/// the seconds focused today, the work sessions ended today, the daily goal
/// in minutes, the seconds focused today in the session's category and the
/// category's goal in seconds, and the streak of days.
pub open spec fn status_is(
    r: WaybarStatus,
    s: TimerState,
    p: Preset,
    focused_today: u64,
    sessions_today: i64,
    daily_goal_minutes: u64,
    category_focused: u64,
    category_target: u64,
    current_streak: i32,
) -> bool {
    let next = next_session_type(s.session_type, s.session_number, p);
    let unit = if current_streak <= 1 {
        "day"@
    } else {
        "days"@
    };
    let progress = duration_text(category_focused as nat) + " / "@ + duration_text(
        category_target as nat,
    );
    &&& r.text@ == time_text(s.time_remaining)
    &&& r.alt@ == (if s.running {
        alt_base(s.session_type)
    } else {
        alt_base(s.session_type) + "-paused"@
    })
    &&& r.class@.len() == (if s.running {
        1int
    } else {
        2
    })
    &&& r.class@[0]@ == alt_base(s.session_type)
    &&& !s.running ==> r.class@[1]@ == "paused"@
    &&& r.session@ == session_name(s.session_type)
    &&& r.next_session@ == session_name(next)
    &&& r.sessions_today == module_count(sessions_today as int)
    &&& r.focused_today@ == duration_text(focused_today as nat)
    &&& r.daily_goal@ == duration_text((daily_goal_minutes * 60) as nat)
    &&& r.current_streak == module_count(current_streak as int)
    &&& r.work_sessions_before_long_break == p.sessions_before_long_break
    &&& r.completed_sessions == s.session_number - 1
    &&& r.category@ == s.category@
    &&& r.category_progress@ == progress
    &&& r.tooltip@ == tooltip_text(
        session_name(s.session_type),
        s.category@,
        s.session_number,
        p.sessions_before_long_break,
        session_name(next),
        duration_text(session_seconds(next, p)),
        duration_text(focused_today as nat),
        progress,
        current_streak as u32,
        unit,
    )
}

/// Puts together what the module shows.
pub fn waybar_status(
    state: &TimerState,
    preset: &Preset,
    focused_today: u64,
    sessions_today: i64,
    daily_goal_minutes: u64,
    category_focused: u64,
    category_target: u64,
    current_streak: i32,
) -> (r: WaybarStatus)
    requires
        preset.fits(),
        state.session_number >= 1,
        daily_goal_minutes * 60 <= u64::MAX,
        current_streak >= 0,
    ensures
        status_is(
            r,
            *state,
            *preset,
            focused_today,
            sessions_today,
            daily_goal_minutes,
            category_focused,
            category_target,
            current_streak,
        ),
{
    let text = render_time(state);
    let (alt, class) = status_classes(state.session_type, state.running);
    let current_session = state.session_type.name();
    let next = state.session_type.next(state.session_number, preset);
    let next_name = next.name();
    let time_for_next = render_duration(next.get_time(preset));
    let completed_today = render_duration(focused_today);
    let daily_goal = render_duration(daily_goal_minutes * 60);
    let focused_text = render_duration(category_focused);
    let target_text = render_duration(category_target);
    let progress = category_progress(focused_text.as_str(), target_text.as_str());
    let unit = streak_unit(current_streak);
    let tip = tooltip(
        current_session,
        state.category.as_str(),
        state.session_number,
        preset.sessions_before_long_break,
        next_name,
        time_for_next.as_str(),
        completed_today.as_str(),
        progress.as_str(),
        current_streak as u32,
        unit,
    );
    let streak_count = to_count(current_streak as i64);
    WaybarStatus {
        text,
        alt,
        class,
        tooltip: tip,
        session: String::from_str(current_session),
        next_session: String::from_str(next_name),
        sessions_today: to_count(sessions_today),
        focused_today: completed_today,
        daily_goal,
        current_streak: streak_count,
        work_sessions_before_long_break: preset.sessions_before_long_break,
        completed_sessions: completed_sessions(state.session_number),
        category: state.category.clone(),
        category_progress: progress,
    }
}

/// The module names as the next session the one the timer moves on to: a
/// long break after the last work session of a cycle, a short break after
/// any other work session, and work after a break; the tooltip names it
/// with its full length.
pub proof fn lemma_status_names_the_next_session(
    r: WaybarStatus,
    s: TimerState,
    p: Preset,
    focused_today: u64,
    sessions_today: i64,
    daily_goal_minutes: u64,
    category_focused: u64,
    category_target: u64,
    current_streak: i32,
)
    requires
        status_is(
            r,
            s,
            p,
            focused_today,
            sessions_today,
            daily_goal_minutes,
            category_focused,
            category_target,
            current_streak,
        ),
    ensures
        r.next_session@ == session_name(crate::engine::after_next_session(s, p).session_type),
        s.session_type == SessionType::Work && s.session_number == p.sessions_before_long_break
            ==> r.next_session@ == "Long Break"@,
        s.session_type == SessionType::Work && s.session_number != p.sessions_before_long_break
            ==> r.next_session@ == "Short Break"@,
        s.session_type != SessionType::Work ==> r.next_session@ == "Work"@,
{
}

} // verus!
