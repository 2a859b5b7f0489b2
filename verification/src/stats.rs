//! Statistics over the history: the queries for focused time, the streak of
//! days with sessions, and the focused time per day.

use vstd::prelude::*;
use chrono::Datelike;
use crate::history::HistoryEntry;
use crate::text::{concat_str, str_equal};

verus! {

/// The span of time a total covers.
#[derive(Clone, Copy, Debug, PartialEq, Eq, Structural)]
pub enum DurType {
    Today,
    Week,
    Month,
    All,
}

/// The condition that picks the sessions of a span: today's; this week's,
/// from its Monday (today, on a Monday) up to today; this month's; or all;
/// with `work`, only work sessions.
pub open spec fn sql_condition(dur: DurType, work: bool) -> Seq<char> {
    let conditional = match dur {
        DurType::Today => "WHERE date(end_time) = date('now', 'localtime')"@,
        DurType::Week => "WHERE date(end_time) >= date('now', 'localtime', 'weekday 0', '-6 days')
       AND date(end_time) <= date('now', 'localtime')"@,
        DurType::Month => "WHERE strftime('%Y-%m', end_time) = strftime('%Y-%m', 'now', 'localtime')"@,
        DurType::All => ""@,
    };
    if work && dur == DurType::All {
        "WHERE session_type='Work'"@
    } else if work {
        conditional + " AND session_type='Work'"@
    } else {
        conditional
    }
}

/// The SQL condition that picks the sessions of a span.
pub fn get_sql_condition(dur: DurType, work: bool) -> (r: String)
    ensures
        r@ == sql_condition(dur, work),
{
    if work && dur == DurType::All {
        return String::from_str("WHERE session_type='Work'");
    }
    let conditional = match dur {
        DurType::Today => "WHERE date(end_time) = date('now', 'localtime')",
        DurType::Week => {
            "WHERE date(end_time) >= date('now', 'localtime', 'weekday 0', '-6 days')
       AND date(end_time) <= date('now', 'localtime')"
        },
        DurType::Month => "WHERE strftime('%Y-%m', end_time) = strftime('%Y-%m', 'now', 'localtime')",
        DurType::All => "",
    };
    if work {
        concat_str(conditional, " AND session_type='Work'")
    } else {
        String::from_str(conditional)
    }
}

/// The query for the seconds of work focused in a span.
pub fn total_time_query(dur: DurType) -> (r: String)
    ensures
        r@ == "SELECT SUM(completed_duration) FROM history "@ + sql_condition(dur, true),
{
    let cond = get_sql_condition(dur, true);
    concat_str("SELECT SUM(completed_duration) FROM history ", cond.as_str())
}

/// The query for the number of work sessions that ran their full length.
pub fn completed_sessions_query() -> (r: &'static str)
    ensures
        r@ == "SELECT COUNT(*) FROM history WHERE session_type='Work' AND completed_duration==planned_duration"@,
{
    "SELECT COUNT(*) FROM history WHERE session_type='Work' AND completed_duration==planned_duration"
}

/// The days on which the entries ended, newest first.
pub open spec fn entry_days(h: Seq<HistoryEntry>) -> Seq<int> {
    h.map_values(|e: HistoryEntry| e.end_day as int)
}

/// The streak counted over days given newest first, when `expected` is the
/// next day the streak needs: each day equal to it extends the streak by one
/// and moves it a day back, a later day is passed over, and an earlier day
/// ends the streak.
pub open spec fn streak_from(days: Seq<int>, expected: int) -> nat
    decreases days.len(),
{
    if days.len() == 0 {
        0
    } else if days[0] == expected {
        1 + streak_from(days.drop_first(), expected - 1)
    } else if days[0] < expected {
        0
    } else {
        streak_from(days.drop_first(), expected)
    }
}

/// The streak never exceeds the number of days given.
pub proof fn lemma_streak_bounded(days: Seq<int>, expected: int)
    ensures
        streak_from(days, expected) <= days.len(),
    decreases days.len(),
{
    if days.len() > 0 {
        lemma_streak_bounded(days.drop_first(), expected - 1);
        lemma_streak_bounded(days.drop_first(), expected);
    }
}

/// Sessions on each of the last `k` days, one per day, newest first from
/// `today`, make a streak of `k` days.
pub proof fn lemma_consecutive_days_streak(days: Seq<int>, today: int)
    requires
        forall|k: int| 0 <= k < days.len() ==> days[k] == today - k,
    ensures
        streak_from(days, today) == days.len(),
    decreases days.len(),
{
    if days.len() > 0 {
        assert forall|k: int| 0 <= k < days.drop_first().len() implies days.drop_first()[k] == (
        today - 1) - k by {
            assert(days.drop_first()[k] == days[k + 1]);
        }
        lemma_consecutive_days_streak(days.drop_first(), today - 1);
    }
}

/// A history whose newest session ended before `today` has no streak.
pub proof fn lemma_no_session_today_no_streak(days: Seq<int>, today: int)
    requires
        days.len() > 0,
        days[0] < today,
    ensures
        streak_from(days, today) == 0,
{
}

/// The days are given newest first: none comes after an earlier one.
pub open spec fn newest_first(days: Seq<int>) -> bool {
    forall|i: int, j: int| 0 <= i < j < days.len() ==> days[j] <= days[i]
}

/// A session ended `back` days before day `day`.
pub open spec fn has_day_back(days: Seq<int>, day: int, back: int) -> bool {
    days.contains(day - back)
}

/// For days given newest first, the streak back from `expected` is the run
/// of consecutive days with a session: each of the `streak` days from
/// `expected` back has one, and the day before them has none.
pub proof fn lemma_streak_is_run_of_days(days: Seq<int>, expected: int)
    requires
        newest_first(days),
    ensures
        forall|j: int|
            0 <= j < streak_from(days, expected) ==> #[trigger] has_day_back(days, expected, j),
        !days.contains(expected - streak_from(days, expected)),
    decreases days.len(),
{
    if days.len() > 0 {
        let rest = days.drop_first();
        assert(newest_first(rest)) by {
            assert forall|i: int, j: int| 0 <= i < j < rest.len() implies rest[j] <= rest[i] by {
                assert(rest[j] == days[j + 1] && rest[i] == days[i + 1]);
            }
        }
        assert forall|d: int| rest.contains(d) implies days.contains(d) by {
            let k = choose|k: int| 0 <= k < rest.len() && rest[k] == d;
            assert(days[k + 1] == d);
        }
        if days[0] == expected {
            lemma_streak_is_run_of_days(rest, expected - 1);
            let s = streak_from(rest, expected - 1);
            assert forall|j: int| 0 <= j < streak_from(days, expected) implies #[trigger] has_day_back(
                days,
                expected,
                j,
            ) by {
                if j == 0 {
                    assert(days[0] == expected - j);
                } else {
                    assert(has_day_back(rest, expected - 1, j - 1));
                }
            }
            assert(!days.contains(expected - (1 + s))) by {
                if days.contains(expected - (1 + s)) {
                    let k = choose|k: int| 0 <= k < days.len() && days[k] == expected - (1 + s);
                    if k == 0 {
                    } else {
                        assert(rest[k - 1] == days[k]);
                    }
                }
            }
        } else if days[0] < expected {
            assert(!days.contains(expected)) by {
                if days.contains(expected) {
                    let k = choose|k: int| 0 <= k < days.len() && days[k] == expected;
                    if k > 0 {
                        assert(days[k] <= days[0]);
                    }
                }
            }
        } else {
            lemma_streak_is_run_of_days(rest, expected);
            let s = streak_from(rest, expected);
            assert forall|j: int| 0 <= j < s implies #[trigger] has_day_back(days, expected, j) by {
                assert(has_day_back(rest, expected, j));
            }
            assert(!days.contains(expected - s)) by {
                if days.contains(expected - s) {
                    let k = choose|k: int| 0 <= k < days.len() && days[k] == expected - s;
                    if k > 0 {
                        assert(rest[k - 1] == days[k]);
                    }
                }
            }
        }
    }
}

/// Counts the days in a row, back from `today`, on which a session ended;
/// the history is sorted from newest to oldest.
pub fn streak_since(all_history: &Vec<HistoryEntry>, today: i32) -> (streak: i32)
    requires
        all_history@.len() <= i32::MAX,
    ensures
        streak == streak_from(entry_days(all_history@), today as int),
{
    let mut streak: i32 = 0;
    let mut expected_day: i64 = today as i64;
    let mut i: usize = 0;
    let ghost days = entry_days(all_history@);
    proof {
        assert(days.skip(0) =~= days);
    }
    while i < all_history.len()
        invariant
            days == entry_days(all_history@),
            all_history@.len() <= i32::MAX,
            i <= all_history@.len(),
            0 <= streak <= i,
            expected_day == today - streak,
            streak + streak_from(days.skip(i as int), expected_day as int) == streak_from(
                days,
                today as int,
            ),
        decreases all_history@.len() - i,
    {
        let day = all_history[i].end_day as i64;
        proof {
            assert(days.skip(i as int)[0] == day);
            assert(days.skip(i as int).drop_first() =~= days.skip(i as int + 1));
        }
        if day == expected_day {
            streak = streak + 1;
            expected_day = expected_day - 1;
        } else if day < expected_day {
            return streak;
        }
        i = i + 1;
    }
    proof {
        assert(days.skip(i as int).len() == 0);
    }
    streak
}

/// The days that chrono's dates cover, counted as `num_days_from_ce` counts
/// them (January 1 of the year 1 is day 1): from January 1 of the year
/// -262143 to December 31 of the year 262142.
pub open spec fn in_calendar(day: int) -> bool {
    -95_746_129 <= day <= 95_745_399
}

/// The `n` days that end with day `today` all lie within the calendar.
pub open spec fn days_in_calendar(today: int, n: nat) -> bool {
    n == 0 || (in_calendar(today - (n - 1)) && in_calendar(today))
}

/// The earliest local date that chrono's clock gives: December 31, 1969.
/// `Utc::now` stops the program for a clock before the Unix epoch, and a
/// local offset is less than a day.
pub open spec fn earliest_clock_day() -> int {
    719_162
}

/// Today's date as a day count from January 1 of the year 1 (day 1), in the
/// machine's time zone. Calls `chrono::Local::now` and
/// `Datelike::num_days_from_ce`. Claims that the day lies within chrono's
/// calendar, as every chrono date does, and not before December 31, 1969
/// (`Utc::now` panics for a clock set before the Unix epoch); which day it
/// is depends on the clock.
#[verifier::external_body]
fn today_ordinal() -> (r: i32)
    ensures
        in_calendar(r as int),
        earliest_clock_day() <= r,
{
    chrono::Local::now().date_naive().num_days_from_ce()
}

/// Counts the days in a row, back from today, on which a session ended; the
/// history is sorted from newest to oldest.
pub fn get_current_streak(all_history: &Vec<HistoryEntry>) -> (streak: i32)
    requires
        all_history@.len() <= i32::MAX,
    ensures
        0 <= streak <= all_history@.len(),
        exists|today: i32|
            #![trigger streak_from(entry_days(all_history@), today as int)]
            in_calendar(today as int) && earliest_clock_day() <= today && streak == streak_from(
                entry_days(all_history@),
                today as int,
            ),
{
    let today = today_ordinal();
    let r = streak_since(all_history, today);
    proof {
        lemma_streak_bounded(entry_days(all_history@), today as int);
    }
    r
}

/// The value of the first row for `day`, or zero when no row is for it.
pub open spec fn row_value(rows: Seq<(String, i64)>, day: Seq<char>) -> u64
    decreases rows.len(),
{
    if rows.len() == 0 {
        0
    } else if rows[0].0@ == day {
        rows[0].1 as u64
    } else {
        row_value(rows.drop_first(), day)
    }
}

/// Pairs each day with its focused time from the query's rows, zero for a
/// day without a row.
pub fn fill_days(days: &Vec<String>, rows: &Vec<(String, i64)>) -> (r: Vec<(String, u64)>)
    ensures
        r@.len() == days@.len(),
        forall|i: int|
            0 <= i < days@.len() ==> (#[trigger] r@[i]).0@ == days@[i]@ && r@[i].1 == row_value(
                rows@,
                days@[i]@,
            ),
{
    let mut r: Vec<(String, u64)> = Vec::new();
    let mut i: usize = 0;
    while i < days.len()
        invariant
            i <= days@.len(),
            r@.len() == i,
            forall|k: int|
                0 <= k < i ==> (#[trigger] r@[k]).0@ == days@[k]@ && r@[k].1 == row_value(
                    rows@,
                    days@[k]@,
                ),
        decreases days@.len() - i,
    {
        let day = &days[i];
        let v = find_row(rows, day.as_str());
        r.push((day.clone(), v));
        i = i + 1;
    }
    r
}

/// The value of the first row for `day`, or zero.
fn find_row(rows: &Vec<(String, i64)>, day: &str) -> (v: u64)
    ensures
        v == row_value(rows@, day@),
{
    let mut i: usize = 0;
    proof {
        assert(rows@.skip(0) =~= rows@);
    }
    while i < rows.len()
        invariant
            i <= rows@.len(),
            row_value(rows@, day@) == row_value(rows@.skip(i as int), day@),
        decreases rows@.len() - i,
    {
        proof {
            assert(rows@.skip(i as int).drop_first() =~= rows@.skip(i as int + 1));
        }
        if str_equal(rows[i].0.as_str(), day) {
            return rows[i].1 as u64;
        }
        i = i + 1;
    }
    0
}

/// A name for what `NaiveDate::from_num_days_from_ce_opt` followed by
/// `format("%Y-%m-%d")` gives for a day count: the day's date, written
/// year-month-day.
pub uninterp spec fn iso_date(ordinal: int) -> Seq<char>;

/// Calls `chrono::NaiveDate::from_num_days_from_ce_opt` and formats the date
/// as `%Y-%m-%d`. Claims that a date comes back exactly for the counts
/// within chrono's calendar (its years run from -262143 to 262142), and that
/// it is `iso_date` of the count.
#[verifier::external_body]
fn date_text(ordinal: i32) -> (r: Option<String>)
    ensures
        r is Some <==> in_calendar(ordinal as int),
        r matches Some(s) ==> s@ == iso_date(ordinal as int),
{
    chrono::NaiveDate::from_num_days_from_ce_opt(ordinal).map(|d| d.format("%Y-%m-%d").to_string())
}

/// A day between the first and the last of `n` days that lie within the
/// calendar lies within it too.
proof fn lemma_calendar_between(today: int, n: nat, day: int)
    requires
        n > 0,
        today - (n - 1) <= day <= today,
        !in_calendar(day),
    ensures
        !days_in_calendar(today, n),
{
}

/// The dates of the `n` days that end with the day `today`, oldest first;
/// `None` when one of them lies outside the calendar's range.
pub fn recent_days(today: i32, n: usize) -> (r: Option<Vec<String>>)
    requires
        n <= i32::MAX,
    ensures
        r is Some <==> days_in_calendar(today as int, n as nat),
        r matches Some(days) ==> days@.len() == n && forall|k: int|
            0 <= k < n ==> (#[trigger] days@[k])@ == iso_date(today - (n - 1 - k)),
{
    let mut days: Vec<String> = Vec::new();
    let mut k: usize = 0;
    while k < n
        invariant
            n <= i32::MAX,
            k <= n,
            days@.len() == k,
            forall|j: int| 0 <= j < k ==> (#[trigger] days@[j])@ == iso_date(today - (n - 1 - j)),
            forall|j: int| 0 <= j < k ==> #[trigger] in_calendar(today - (n - 1 - j)),
        decreases n - k,
    {
        let back: i64 = (n - 1 - k) as i64;
        let ord: i64 = today as i64 - back;
        if ord < i32::MIN as i64 {
            proof {
                lemma_calendar_between(today as int, n as nat, ord as int);
            }
            return None;
        }
        match date_text(ord as i32) {
            Some(s) => days.push(s),
            None => {
                proof {
                    lemma_calendar_between(today as int, n as nat, ord as int);
                }
                return None;
            },
        }
        k = k + 1;
    }
    proof {
        if n > 0 {
            assert(in_calendar(today - (n - 1 - 0)));
            assert(in_calendar(today - (n - 1 - (n - 1))));
        }
    }
    Some(days)
}

/// `r` is what the days that end with day `today`, a day of the calendar
/// that the clock can give, give: their focused times when all `n` of them
/// lie within the calendar, else nothing.
pub open spec fn durations_until(
    r: Seq<(String, u64)>,
    rows: Seq<(String, i64)>,
    today: int,
    n: nat,
) -> bool {
    &&& in_calendar(today)
    &&& earliest_clock_day() <= today
    &&& days_in_calendar(today, n) ==> durations_on_days(r, rows, today, n)
    &&& !days_in_calendar(today, n) ==> r.len() == 0
}

/// `r` pairs each of the `n` days that end with day `today`, oldest first,
/// with its focused time from the query's rows.
pub open spec fn durations_on_days(
    r: Seq<(String, u64)>,
    rows: Seq<(String, i64)>,
    today: int,
    n: nat,
) -> bool {
    &&& r.len() == n
    &&& forall|k: int|
        0 <= k < n ==> (#[trigger] r[k]).0@ == iso_date(today - (n - 1 - k)) && r[k].1
            == row_value(rows, r[k].0@)
}

/// The seconds of work focused on each of the `n` days that end with day
/// `today`, oldest first, from the rows of the per-day query; empty when
/// one of the days lies outside the calendar.
pub fn daily_work_durations_until(today: i32, rows: &Vec<(String, i64)>, n: usize) -> (r: Vec<
    (String, u64),
>)
    requires
        n <= i32::MAX,
    ensures
        days_in_calendar(today as int, n as nat) ==> durations_on_days(
            r@,
            rows@,
            today as int,
            n as nat,
        ),
        !days_in_calendar(today as int, n as nat) ==> r@.len() == 0,
{
    match recent_days(today, n) {
        Some(days) => fill_days(&days, rows),
        None => Vec::new(),
    }
}

/// The seconds of work focused on each of the last `n` days, oldest first,
/// from the rows of the per-day query; empty when one of the days lies
/// outside the calendar. Which day is today the clock decides.
pub fn get_daily_work_durations_n_days(rows: &Vec<(String, i64)>, n: usize) -> (r: Vec<(String, u64)>)
    requires
        n <= i32::MAX,
    ensures
        exists|today: int| #[trigger] durations_until(r@, rows@, today, n as nat),
{
    let today = today_ordinal();
    let r = daily_work_durations_until(today, rows, n);
    proof {
        assert(durations_until(r@, rows@, today as int, n as nat));
    }
    r
}

/// A name for what `NaiveDate::parse_from_str` with `%Y-%m-%d` followed by
/// `format("%a")` gives for a text: the abbreviated English name of the
/// day's weekday, or nothing for a text that is no such date.
pub uninterp spec fn weekday_abbrev(date: Seq<char>) -> Option<Seq<char>>;

/// Parses a `%Y-%m-%d` date with `chrono::NaiveDate::parse_from_str` and
/// formats its weekday with `%a`. Claims that the result is
/// `weekday_abbrev` of the text.
#[verifier::external_body]
fn weekday_of(date: &str) -> (r: Option<String>)
    ensures
        match r {
            Some(s) => weekday_abbrev(date@) == Some(s@),
            None => weekday_abbrev(date@) is None,
        },
{
    chrono::NaiveDate::parse_from_str(date, "%Y-%m-%d").ok().map(|d| d.format("%a").to_string())
}

/// Today's weekday, abbreviated (`chrono::Local::now` formatted with
/// `%a`); nothing is stated of it, as it depends on the clock.
#[verifier::external_body]
fn today_weekday() -> String {
    chrono::Local::now().date_naive().format("%a").to_string()
}

/// Labels each day with its weekday's abbreviated name, keeping its value;
/// a text that is no date gets today's weekday.
pub fn weekday_labels(days: &Vec<(String, u64)>) -> (r: Vec<(String, u64)>)
    ensures
        r@.len() == days@.len(),
        forall|i: int|
            0 <= i < days@.len() ==> (#[trigger] r@[i]).1 == days@[i].1 && (weekday_abbrev(
                days@[i].0@,
            ) matches Some(w) ==> r@[i].0@ == w),
{
    let mut r: Vec<(String, u64)> = Vec::new();
    let mut i: usize = 0;
    while i < days.len()
        invariant
            i <= days@.len(),
            r@.len() == i,
            forall|k: int|
                0 <= k < i ==> (#[trigger] r@[k]).1 == days@[k].1 && (weekday_abbrev(
                    days@[k].0@,
                ) matches Some(w) ==> r@[k].0@ == w),
        decreases days@.len() - i,
    {
        let label = match weekday_of(days[i].0.as_str()) {
            Some(w) => w,
            None => today_weekday(),
        };
        r.push((label, days[i].1));
        i = i + 1;
    }
    r
}

/// `r` pairs each of the seven days that end with day `today`, oldest
/// first, with its focused time from the query's rows, each labelled with
/// its weekday.
pub open spec fn labelled_week(r: Seq<(String, u64)>, rows: Seq<(String, i64)>, today: int) -> bool {
    &&& r.len() == 7
    &&& forall|k: int|
        0 <= k < 7 ==> (weekday_abbrev(#[trigger] iso_date(today - (6 - k))) matches Some(w)
            ==> r[k].0@ == w)
    &&& forall|k: int| 0 <= k < 7 ==> (#[trigger] r[k]).1 == row_value(rows, iso_date(today - (6 - k)))
}

/// `r` is what the seven days that end with day `today`, a day of the
/// calendar that the clock can give, give: their labelled focused times.
pub open spec fn week_until(r: Seq<(String, u64)>, rows: Seq<(String, i64)>, today: int) -> bool {
    &&& in_calendar(today)
    &&& earliest_clock_day() <= today
    &&& labelled_week(r, rows, today)
}

/// The seconds of work focused on each of the last seven days, oldest
/// first, each labelled with its weekday. Which day is today the clock
/// decides.
pub fn get_daily_work_durations_7_days(rows: &Vec<(String, i64)>) -> (r: Vec<(String, u64)>)
    ensures
        exists|today: int| #[trigger] week_until(r@, rows@, today),
{
    let days = get_daily_work_durations_n_days(rows, 7);
    let r = weekday_labels(&days);
    proof {
        let today = choose|today: int| #[trigger] durations_until(days@, rows@, today, 7);
        assert(days_in_calendar(today, 7));
        {
            assert forall|k: int| 0 <= k < 7 implies (#[trigger] r@[k]).1 == row_value(
                rows@,
                iso_date(today - (6 - k)),
            ) by {
                assert(days@[k].0@ == iso_date(today - (7 - 1 - k)));
            }
            assert forall|k: int|
                0 <= k < 7 implies (weekday_abbrev(#[trigger] iso_date(today - (6 - k))) matches Some(
                w,
            ) ==> r@[k].0@ == w) by {
                assert(days@[k].0@ == iso_date(today - (7 - 1 - k)));
            }
            assert(labelled_week(r@, rows@, today));
        }
        assert(week_until(r@, rows@, today));
    }
    r
}

/// The query for the seconds of work per day over the last `n` days.
pub fn daily_durations_query(n: usize) -> (r: String)
    requires
        n >= 1,
    ensures
        r@ == "SELECT date(end_time) AS day, SUM(completed_duration)
     FROM history
     WHERE session_type='Work'
       AND date(end_time) >= date('now', '-"@ + crate::text::decimal((n - 1) as nat) + " days', 'localtime')
       AND date(end_time) <= date('now', 'localtime')
     GROUP BY date(end_time)
     ORDER BY day"@,
{
    let days_ago = crate::text::decimal_string((n - 1) as u64);
    let mut r = String::from_str(
        "SELECT date(end_time) AS day, SUM(completed_duration)
     FROM history
     WHERE session_type='Work'
       AND date(end_time) >= date('now', '-",
    );
    r.append(days_ago.as_str());
    r.append(
        " days', 'localtime')
       AND date(end_time) <= date('now', 'localtime')
     GROUP BY date(end_time)
     ORDER BY day",
    );
    r
}

/// How the distribution of session types labels a type stored in the
/// history.
pub open spec fn distribution_label_text(raw: Seq<char>) -> Seq<char> {
    if raw == "Work"@ {
        "Work"@
    } else if raw == "ShortBreak"@ {
        "Short Break"@
    } else if raw == "LongBreak"@ {
        "Long Break"@
    } else {
        raw
    }
}

/// The label of a session type stored in the history, for the distribution
/// of session types.
pub fn distribution_label(raw: &str) -> (r: String)
    ensures
        r@ == distribution_label_text(raw@),
{
    if str_equal(raw, "Work") {
        String::from_str("Work")
    } else if str_equal(raw, "ShortBreak") {
        String::from_str("Short Break")
    } else if str_equal(raw, "LongBreak") {
        String::from_str("Long Break")
    } else {
        String::from_str(raw)
    }
}

/// The longest session; not computed yet.
pub fn get_longest_session() {
}

} // verus!
