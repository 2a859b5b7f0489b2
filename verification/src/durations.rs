//! Renders lengths of time for people: `2h 5m`, `3 hours ago`, `1h 05m`.

use vstd::prelude::*;
use chrono::{Datelike, Timelike};
use crate::session::{min_2_digit, two_digits};
use crate::text::{concat_str, decimal, decimal_string};

verus! {

/// A length of time given in seconds, as `render_duration` writes it:
/// seconds under a minute, minutes and seconds under an hour, and hours
/// and minutes beyond; a zero second or minute part is left out.
pub open spec fn duration_text(s: nat) -> Seq<char> {
    if s < 60 {
        decimal(s) + "s"@
    } else if s < 3600 {
        if s % 60 == 0 {
            decimal(s / 60) + "m"@
        } else {
            decimal(s / 60) + "m "@ + decimal(s % 60) + "s"@
        }
    } else {
        if (s % 3600) / 60 == 0 {
            decimal(s / 3600) + "h"@
        } else {
            decimal(s / 3600) + "h "@ + decimal((s % 3600) / 60) + "m"@
        }
    }
}

/// Renders a length of time given in seconds, such as `2h 5m`.
pub fn render_duration(seconds: u64) -> (r: String)
    ensures
        r@ == duration_text(seconds as nat),
{
    let s = seconds;
    if s < 60 {
        let d = decimal_string(s);
        concat_str(d.as_str(), "s")
    } else if s < 60 * 60 {
        let m = s / 60;
        let sec = s % 60;
        let dm = decimal_string(m);
        if sec == 0 {
            return concat_str(dm.as_str(), "m");
        }
        let mut r = concat_str(dm.as_str(), "m ");
        let ds = decimal_string(sec);
        r.append(ds.as_str());
        r.append("s");
        r
    } else {
        let h = s / 3600;
        let m = (s % 3600) / 60;
        let dh = decimal_string(h);
        if m == 0 {
            return concat_str(dh.as_str(), "h");
        }
        let mut r = concat_str(dh.as_str(), "h ");
        let dm = decimal_string(m);
        r.append(dm.as_str());
        r.append("m");
        r
    }
}

/// How long ago something happened, given the seconds since: "Just Now"
/// under a minute (and for times in the future), then whole minutes, hours
/// or days.
pub open spec fn ago_text(diff: int) -> Seq<char> {
    if diff < 60 {
        "Just Now"@
    } else if diff < 3600 {
        decimal((diff / 60) as nat) + " minutes ago"@
    } else if diff < 86400 {
        decimal((diff / 3600) as nat) + " hours ago"@
    } else {
        decimal((diff / 86400) as nat) + " days ago"@
    }
}

/// Says how long ago something happened, given the seconds since then.
pub fn times_ago_text(diff_sec: i128) -> (r: String)
    requires
        diff_sec < 86400 * (u64::MAX as int),
    ensures
        r@ == ago_text(diff_sec as int),
{
    if diff_sec < 60 {
        String::from_str("Just Now")
    } else if diff_sec < 60 * 60 {
        let d = decimal_string((diff_sec / 60) as u64);
        concat_str(d.as_str(), " minutes ago")
    } else if diff_sec < 60 * 60 * 24 {
        let d = decimal_string((diff_sec / 3600) as u64);
        concat_str(d.as_str(), " hours ago")
    } else {
        let d = decimal_string((diff_sec / 86400) as u64);
        concat_str(d.as_str(), " days ago")
    }
}

/// A name for what `chrono::NaiveDateTime::parse_from_str` with
/// `%Y-%m-%d %H:%M:%S` gives for a text: its year, month, day, hour, minute
/// and second, or nothing for a text that is no such time.
pub uninterp spec fn parsed_local_time(text: Seq<char>) -> Option<(i32, u32, u32, u32, u32, u32)>;

/// Parses a time written `%Y-%m-%d %H:%M:%S` with
/// `chrono::NaiveDateTime::parse_from_str`, and hands back its fields
/// (`Datelike` and `Timelike`). Claims that the result is
/// `parsed_local_time` of the text.
#[verifier::external_body]
fn parse_end_time(text: &str) -> (r: Option<(i32, u32, u32, u32, u32, u32)>)
    ensures
        r == parsed_local_time(text@),
{
    match chrono::NaiveDateTime::parse_from_str(text, "%Y-%m-%d %H:%M:%S") {
        Ok(t) => Some((t.year(), t.month(), t.day(), t.hour(), t.minute(), t.second())),
        Err(_) => None,
    }
}

/// Seconds from the local time with these fields to now:
/// `NaiveDate::from_ymd_opt` and `and_hms_opt`, `and_local_timezone(Local)`
/// with `single`, then `Local::now()` less that time in whole seconds
/// (`num_seconds`). None when the fields name no time or, in the machine's
/// time zone, no single instant. Nothing is stated of the result, which
/// depends on the clock and the time zone.
#[verifier::external_body]
fn seconds_since(t: (i32, u32, u32, u32, u32, u32)) -> Option<i64> {
    let date = chrono::NaiveDate::from_ymd_opt(t.0, t.1, t.2)?;
    let time = date.and_hms_opt(t.3, t.4, t.5)?;
    let local = time.and_local_timezone(chrono::Local).single()?;
    Some((chrono::Local::now() - local).num_seconds())
}

/// Says how long ago a session ended at the local time `end_time`, written
/// `%Y-%m-%d %H:%M:%S`; none when the text is no such time or, in the
/// machine's time zone, names no single instant.
pub fn times_ago(end_time: &str) -> (r: Option<String>)
    ensures
        parsed_local_time(end_time@) is None ==> r is None,
        r matches Some(s) ==> exists|d: i64| s@ == ago_text(d as int),
{
    let t = match parse_end_time(end_time) {
        Some(t) => t,
        None => return None,
    };
    match seconds_since(t) {
        Some(d) => {
            let s = times_ago_text(d as i128);
            proof {
                assert(s@ == ago_text(d as int));
            }
            Some(s)
        },
        None => None,
    }
}

/// A length of time in the short form of the bar chart's labels: hours and
/// two-digit minutes, or whole minutes, or seconds.
pub open spec fn short_duration_text(s: nat) -> Seq<char> {
    if s >= 3600 {
        if (s % 3600) / 60 > 0 {
            decimal(s / 3600) + "h "@ + two_digits((s % 3600) / 60) + "m"@
        } else {
            decimal(s / 3600) + "h"@
        }
    } else if s >= 60 {
        decimal(s / 60) + "m"@
    } else {
        decimal(s) + "s"@
    }
}

/// Renders a length of time in seconds in short form, such as `1h 05m`.
pub fn fmt_duration_short(seconds: u64) -> (r: String)
    ensures
        r@ == short_duration_text(seconds as nat),
{
    if seconds >= 3600 {
        let h = decimal_string(seconds / 3600);
        let m = (seconds % 3600) / 60;
        if m > 0 {
            let mut r = concat_str(h.as_str(), "h ");
            let mm = min_2_digit(m);
            r.append(mm.as_str());
            r.append("m");
            r
        } else {
            concat_str(h.as_str(), "h")
        }
    } else if seconds >= 60 {
        let d = decimal_string(seconds / 60);
        concat_str(d.as_str(), "m")
    } else {
        let d = decimal_string(seconds);
        concat_str(d.as_str(), "s")
    }
}

/// `render_duration`'s text from its parts: a count with a unit, and a
/// second count with the next unit when that count is not zero.
pub open spec fn two_units(big: nat, big_unit: Seq<char>, small: nat, small_unit: Seq<char>) -> Seq<char> {
    if small == 0 {
        decimal(big) + big_unit
    } else {
        decimal(big) + big_unit + " "@ + decimal(small) + small_unit
    }
}

/// A rendered length of time adds up to the seconds it renders: under a
/// minute it is the seconds; under an hour it is whole minutes and the
/// seconds left over; from an hour on it is whole hours, with no wrap at a
/// day, and the minutes left over, which with the hours come to the
/// seconds rounded down to the minute.
pub proof fn lemma_duration_adds_up(s: nat)
    ensures
        s < 60 ==> duration_text(s) == decimal(s) + "s"@,
        60 <= s < 3600 ==> exists|m: nat, sec: nat|
            sec < 60 && m * 60 + sec == s && #[trigger] duration_text(s) == two_units(
                m,
                "m"@,
                sec,
                "s"@,
            ),
        3600 <= s ==> exists|h: nat, m: nat|
            m < 60 && h * 3600 + m * 60 <= s < h * 3600 + m * 60 + 60 && #[trigger] duration_text(s)
                == two_units(h, "h"@, m, "m"@),
{
    if 60 <= s < 3600 {
        let m = s / 60;
        let sec = s % 60;
        vstd::arithmetic::div_mod::lemma_fundamental_div_mod(s as int, 60);
        assert(m * 60 + sec == s);
        reveal_strlit("m ");
        reveal_strlit("m");
        reveal_strlit(" ");
        assert(("m "@) =~= "m"@ + " "@);
        assert(duration_text(s) =~= two_units(m, "m"@, sec, "s"@));
    }
    if 3600 <= s {
        let h = s / 3600;
        let m = (s % 3600) / 60;
        vstd::arithmetic::div_mod::lemma_fundamental_div_mod(s as int, 3600);
        vstd::arithmetic::div_mod::lemma_fundamental_div_mod((s % 3600) as int, 60);
        assert(h * 3600 + s % 3600 == s);
        assert(m * 60 <= s % 3600 < m * 60 + 60);
        reveal_strlit("h ");
        reveal_strlit("h");
        reveal_strlit(" ");
        assert(("h "@) =~= "h"@ + " "@);
        assert(duration_text(s) =~= two_units(h, "h"@, m, "m"@));
    }
}

} // verus!
