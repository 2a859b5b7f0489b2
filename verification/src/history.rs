//! The history of finished sessions, as read back from the database.

use vstd::prelude::*;
use crate::durations::{duration_text, render_duration};
use crate::session::{SessionType, session_name};
use crate::text::concat_str;

verus! {

/// A finished session, as recorded in the history.
pub struct HistoryEntry {
    /// When the session ended, in local time, written `%Y-%m-%d %H:%M:%S`.
    pub end_time: String,
    /// The day the session ended, counted from January 1 of the year 1
    /// (which is day 1).
    pub end_day: i32,
    pub planned_duration: i64,
    pub completed_duration: i64,
    pub session_type: SessionType,
    pub is_completed: bool,
    pub category: String,
}

/// The line `print_history` writes for an entry that ended `ago`.
pub open spec fn history_line_text(e: HistoryEntry, ago: Seq<char>) -> Seq<char> {
    session_name(e.session_type) + " ["@ + e.category@ + "] ("@ + (if e.is_completed {
        "completed"@
    } else {
        "incomplete"@
    }) + ") - target: "@ + duration_text(e.planned_duration as nat) + ", completed: "@
        + duration_text(e.completed_duration as nat) + ", "@ + ago + "."@
}

/// Renders an entry for the printed history: its type, category and
/// status, the planned and the completed length, and how long ago it ended.
pub fn history_line(entry: &HistoryEntry, ago: &str) -> (r: String)
    requires
        entry.planned_duration >= 0,
        entry.completed_duration >= 0,
    ensures
        r@ == history_line_text(*entry, ago@),
{
    let mut r = concat_str(entry.session_type.name(), " [");
    r.append(entry.category.as_str());
    r.append("] (");
    r.append(
        if entry.is_completed {
            "completed"
        } else {
            "incomplete"
        },
    );
    r.append(") - target: ");
    let planned = render_duration(entry.planned_duration as u64);
    r.append(planned.as_str());
    r.append(", completed: ");
    let completed = render_duration(entry.completed_duration as u64);
    r.append(completed.as_str());
    r.append(", ");
    r.append(ago);
    r.append(".");
    r
}

} // verus!
