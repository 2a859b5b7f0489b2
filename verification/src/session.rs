//! The kinds of session, their names and lengths, and which session follows
//! which.

use vstd::prelude::*;
use crate::config::Preset;
use crate::text::{
    ascii_lowercase, decimal, decimal_string, is_ascii_text, lemma_ascii_lowercase_settles,
    lemma_trim_settles, lowercase, str_equal, to_lowercase, trim, trim_end_seq, trim_seq,
    trim_start_seq,
};

verus! {

/// The kind of a session.
#[derive(Clone, Copy, Debug, PartialEq, Eq, Structural)]
pub enum SessionType {
    Work,
    ShortBreak,
    LongBreak,
}

/// The name of a session type as the user sees it.
pub open spec fn session_name(s: SessionType) -> Seq<char> {
    match s {
        SessionType::Work => "Work"@,
        SessionType::ShortBreak => "Short Break"@,
        SessionType::LongBreak => "Long Break"@,
    }
}

/// The name without white space around it, in lowercase: for a name of
/// ASCII characters, `A` to `Z` turned into `a` to `z`.
pub open spec fn plain_name(name: Seq<char>) -> Seq<char> {
    let t = trim_seq(name);
    if is_ascii_text(t) {
        ascii_lowercase(t)
    } else {
        lowercase(t)
    }
}

/// The session type that a name stands for: "work" and "short break" in any
/// case and with white space around them; any other name stands for a long
/// break.
pub open spec fn session_from_name(name: Seq<char>) -> SessionType {
    let l = plain_name(name);
    if l == "work"@ {
        SessionType::Work
    } else if l == "short break"@ {
        SessionType::ShortBreak
    } else {
        SessionType::LongBreak
    }
}

/// The length of a session of the given type under the preset, in seconds.
pub open spec fn session_seconds(s: SessionType, p: Preset) -> nat {
    match s {
        SessionType::Work => (p.work_minutes * 60) as nat,
        SessionType::ShortBreak => (p.short_break_minutes * 60) as nat,
        SessionType::LongBreak => (p.long_break_minutes * 60) as nat,
    }
}

/// The session that follows `s` when `prev` was the number of the work
/// session of the current cycle: a long break after the last work session of
/// a cycle, a short break after any other, and work after a break.
pub open spec fn next_session_type(s: SessionType, prev: u64, p: Preset) -> SessionType {
    match s {
        SessionType::Work => if p.sessions_before_long_break == prev {
            SessionType::LongBreak
        } else {
            SessionType::ShortBreak
        },
        _ => SessionType::Work,
    }
}

impl SessionType {
    /// The name of the session type.
    pub fn name(self) -> (s: &'static str)
        ensures
            s@ == session_name(self),
    {
        match self {
            SessionType::Work => "Work",
            SessionType::ShortBreak => "Short Break",
            SessionType::LongBreak => "Long Break",
        }
    }

    /// The session type a name stands for.
    pub fn from_string(name: &str) -> (s: SessionType)
        ensures
            s == session_from_name(name@),
    {
        let t = trim(name);
        let l = to_lowercase(t.as_str());
        if str_equal(l.as_str(), "work") {
            SessionType::Work
        } else if str_equal(l.as_str(), "short break") {
            SessionType::ShortBreak
        } else {
            SessionType::LongBreak
        }
    }

    /// The full length of a session of this type, in seconds.
    pub fn get_time(self, preset: &Preset) -> (secs: u64)
        requires
            preset.fits(),
        ensures
            secs == session_seconds(self, *preset),
    {
        match self {
            SessionType::Work => preset.work_minutes * 60,
            SessionType::ShortBreak => preset.short_break_minutes * 60,
            SessionType::LongBreak => preset.long_break_minutes * 60,
        }
    }

    /// The session that follows this one.
    pub fn next(self, prev_session_number: u64, preset: &Preset) -> (s: SessionType)
        ensures
            s == next_session_type(self, prev_session_number, *preset),
    {
        match self {
            SessionType::Work => {
                if preset.sessions_before_long_break == prev_session_number {
                    SessionType::LongBreak
                } else {
                    SessionType::ShortBreak
                }
            },
            SessionType::ShortBreak => SessionType::Work,
            SessionType::LongBreak => SessionType::Work,
        }
    }
}

/// The name of a session type.
pub fn name_for_session(session: SessionType) -> (s: &'static str)
    ensures
        s@ == session_name(session),
{
    session.name()
}

/// The session type a name stands for.
pub fn get_session_type(name: &str) -> (s: SessionType)
    ensures
        s == session_from_name(name@),
{
    SessionType::from_string(name)
}

/// The full length of a session, in seconds.
pub fn time_for_session(session: SessionType, preset: &Preset) -> (secs: u64)
    requires
        preset.fits(),
    ensures
        secs == session_seconds(session, *preset),
{
    session.get_time(preset)
}

/// The session that follows `session`.
pub fn next_session(session: SessionType, prev_session_number: u64, preset: &Preset) -> (s:
    SessionType)
    ensures
        s == next_session_type(session, prev_session_number, *preset),
{
    session.next(prev_session_number, preset)
}

/// `n` in decimal with at least two digits.
pub open spec fn two_digits(n: nat) -> Seq<char> {
    if n >= 10 {
        decimal(n)
    } else {
        "0"@ + decimal(n)
    }
}

/// Renders `time` in decimal with at least two digits: `7` is `07`.
pub fn min_2_digit(time: u64) -> (s: String)
    ensures
        s@ == two_digits(time as nat),
{
    if time >= 10 {
        decimal_string(time)
    } else {
        let mut s = String::from_str("0");
        let d = decimal_string(time);
        s.append(d.as_str());
        s
    }
}

/// A session type's name stands for that type: "Work", "Short Break" and
/// "Long Break" read back as the types they name.
pub proof fn lemma_name_maps_back(t: SessionType)
    ensures
        session_from_name(session_name(t)) == t,
{
    reveal_strlit("Work");
    reveal_strlit("Short Break");
    reveal_strlit("Long Break");
    reveal_strlit("work");
    reveal_strlit("short break");
    let n = session_name(t);
    assert(trim_start_seq(n) == n);
    assert(trim_end_seq(n) == n);
    assert(trim_seq(n) == n);
    assert(is_ascii_text(n)) by {
        assert forall|i: int| 0 <= i < n.len() implies (#[trigger] n[i] as u32) < 0x80 by {
        }
    }
    let l = ascii_lowercase(n);
    match t {
        SessionType::Work => {
            assert(l =~= "work"@);
        },
        SessionType::ShortBreak => {
            assert(l =~= "short break"@);
        },
        SessionType::LongBreak => {
            assert(l.len() == 10);
        },
    }
}

/// For a name of ASCII characters, white space around it and the case of
/// its letters do not matter: the name trimmed and lowered stands for the
/// same session type, and is its own plain form.
pub proof fn lemma_plain_name_settles(name: Seq<char>)
    requires
        is_ascii_text(trim_seq(name)),
    ensures
        plain_name(plain_name(name)) == plain_name(name),
        session_from_name(plain_name(name)) == session_from_name(name),
{
    let t = trim_seq(name);
    lemma_trim_settles(name, t);
    lemma_ascii_lowercase_settles(t);
    let l = ascii_lowercase(t);
    lemma_trim_settles(l, l);
    lemma_ascii_lowercase_settles(l);
}

} // verus!
