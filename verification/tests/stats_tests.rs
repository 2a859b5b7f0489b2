use chrono::{Datelike, Local};
use focusd::history::{history_line, HistoryEntry};
use focusd::session::SessionType;
use focusd::stats::{
  completed_sessions_query, daily_durations_query, daily_work_durations_until, distribution_label,
  fill_days, get_current_streak, get_daily_work_durations_7_days, get_daily_work_durations_n_days,
  weekday_labels, get_longest_session, get_sql_condition,
  recent_days, streak_since, total_time_query, DurType,
};

fn entry(day: i32) -> HistoryEntry {
  HistoryEntry {
    end_time: "2024-01-01 10:00:00".to_string(),
    end_day: day,
    planned_duration: 1500,
    completed_duration: 1500,
    session_type: SessionType::Work,
    is_completed: true,
    category: "General".to_string(),
  }
}

#[test]
fn streak_counts_consecutive_days() {
  let h: Vec<HistoryEntry> = vec![entry(100), entry(100), entry(99), entry(98), entry(96)];
  assert_eq!(streak_since(&h, 100), 3);
  assert_eq!(streak_since(&h, 101), 0);
  assert_eq!(streak_since(&Vec::new(), 100), 0);
  let consecutive: Vec<HistoryEntry> = (0..5).map(|k| entry(200 - k)).collect();
  assert_eq!(streak_since(&consecutive, 200), 5);
}

#[test]
fn current_streak_counts_from_today() {
  let today = Local::now().date_naive().num_days_from_ce();
  let h: Vec<HistoryEntry> = vec![entry(today), entry(today - 1)];
  let s = get_current_streak(&h);
  assert!(s == 2 || s == 0);
  assert_eq!(get_current_streak(&Vec::new()), 0);
}

#[test]
fn sql_conditions() {
  assert_eq!(get_sql_condition(DurType::All, true), "WHERE session_type='Work'");
  assert_eq!(get_sql_condition(DurType::All, false), "");
  assert_eq!(
    get_sql_condition(DurType::Today, true),
    "WHERE date(end_time) = date('now', 'localtime') AND session_type='Work'"
  );
  assert_eq!(
    get_sql_condition(DurType::Month, false),
    "WHERE strftime('%Y-%m', end_time) = strftime('%Y-%m', 'now', 'localtime')"
  );
  assert_eq!(
    total_time_query(DurType::All),
    "SELECT SUM(completed_duration) FROM history WHERE session_type='Work'"
  );
  assert!(completed_sessions_query().starts_with("SELECT COUNT(*)"));
  assert!(daily_durations_query(7).contains("'-6 days'"));
}

#[test]
fn days_are_filled_from_rows() {
  let days = vec!["2024-01-01".to_string(), "2024-01-02".to_string(), "2024-01-03".to_string()];
  let rows = vec![("2024-01-03".to_string(), 300i64), ("2024-01-01".to_string(), 60i64)];
  let r = fill_days(&days, &rows);
  assert_eq!(
    r,
    vec![
      ("2024-01-01".to_string(), 60u64),
      ("2024-01-02".to_string(), 0u64),
      ("2024-01-03".to_string(), 300u64)
    ]
  );
}

#[test]
fn recent_days_are_dates_ending_today() {
  let today = Local::now().date_naive();
  let days = recent_days(today.num_days_from_ce(), 3).unwrap();
  assert_eq!(days.len(), 3);
  assert_eq!(days[2], today.format("%Y-%m-%d").to_string());
  assert_eq!(
    days[0],
    (today - chrono::Duration::days(2)).format("%Y-%m-%d").to_string()
  );
  let rows = vec![(days[1].clone(), 42i64)];
  let r = get_daily_work_durations_n_days(&rows, 3);
  assert_eq!(r.len(), 3);
  assert_eq!(r[1].1, 42);
  assert_eq!(r[0].1, 0);
}

#[test]
fn distribution_labels() {
  assert_eq!(distribution_label("ShortBreak"), "Short Break");
  assert_eq!(distribution_label("LongBreak"), "Long Break");
  assert_eq!(distribution_label("Work"), "Work");
  assert_eq!(distribution_label("Short Break"), "Short Break");
  get_longest_session();
}

#[test]
fn history_lines() {
  let mut e = entry(1);
  e.completed_duration = 125;
  e.is_completed = false;
  assert_eq!(
    history_line(&e, "3 days ago"),
    "Work [General] (incomplete) - target: 25m, completed: 2m 5s, 3 days ago."
  );
}

#[test]
fn durations_until_a_given_day() {
  let day = chrono::NaiveDate::from_ymd_opt(2024, 1, 3).unwrap().num_days_from_ce();
  let rows = vec![("2024-01-02".to_string(), 120i64), ("2023-12-31".to_string(), 7i64)];
  let r = daily_work_durations_until(day, &rows, 4);
  assert_eq!(
    r,
    vec![
      ("2023-12-31".to_string(), 7u64),
      ("2024-01-01".to_string(), 0u64),
      ("2024-01-02".to_string(), 120u64),
      ("2024-01-03".to_string(), 0u64)
    ]
  );
  assert!(daily_work_durations_until(day, &rows, 0).is_empty());
}

#[test]
fn weekdays_label_the_days() {
  let days = vec![("2024-01-01".to_string(), 5u64), ("2024-01-06".to_string(), 9u64)];
  assert_eq!(
    weekday_labels(&days),
    vec![("Mon".to_string(), 5u64), ("Sat".to_string(), 9u64)]
  );
  let today = Local::now().date_naive().format("%a").to_string();
  let odd = vec![("not a date".to_string(), 1u64)];
  assert_eq!(weekday_labels(&odd), vec![(today, 1u64)]);
}

#[test]
fn last_seven_days_by_weekday() {
  let today = Local::now().date_naive();
  let rows = vec![(today.format("%Y-%m-%d").to_string(), 600i64)];
  let r = get_daily_work_durations_7_days(&rows);
  assert_eq!(r.len(), 7);
  assert_eq!(r[6], (today.format("%a").to_string(), 600u64));
  assert_eq!(r[0], ((today - chrono::Duration::days(6)).format("%a").to_string(), 0u64));
}

#[test]
fn the_calendar_bounds_the_days() {
  let last = chrono::NaiveDate::from_ymd_opt(262142, 12, 31).unwrap().num_days_from_ce();
  let first = chrono::NaiveDate::from_ymd_opt(-262143, 1, 1).unwrap().num_days_from_ce();
  assert_eq!(last, 95_745_399);
  assert_eq!(first, -95_746_129);
  assert_eq!(recent_days(last, 2).unwrap().len(), 2);
  assert!(recent_days(last + 1, 2).is_none());
  assert!(recent_days(last + 1, 0).is_some());
  assert_eq!(recent_days(first + 1, 2).unwrap().len(), 2);
  assert!(recent_days(first, 2).is_none());
  assert!(recent_days(i32::MIN, 1).is_none());
  assert!(recent_days(i32::MAX, 3).is_none());
  let rows = vec![("2024-01-01".to_string(), 5i64)];
  assert!(daily_work_durations_until(last + 1, &rows, 1).is_empty());
  assert_eq!(daily_work_durations_until(first, &rows, 1).len(), 1);
}

#[test]
fn this_weeks_total_counts_today() {
  let db = rusqlite::Connection::open_in_memory().unwrap();
  db.execute(focusd::schema::step_sql(focusd::schema::SchemaStep::CreateTable), []).unwrap();
  let fmt = "%Y-%m-%d %H:%M:%S";
  let now = Local::now();
  let insert = "INSERT INTO history (end_time, planned_duration, completed_duration, session_type, is_completed) VALUES (?1, 1500, ?2, 'Work', 1)";
  db.execute(insert, (now.format(fmt).to_string(), 600)).unwrap();
  db.execute(insert, ((now - chrono::Duration::days(7)).format(fmt).to_string(), 9000)).unwrap();
  let week: i64 = db.query_row(&total_time_query(DurType::Week), [], |r| r.get(0)).unwrap();
  assert_eq!(week, 600);
  let today: i64 = db.query_row(&total_time_query(DurType::Today), [], |r| r.get(0)).unwrap();
  assert_eq!(today, 600);
}

#[test]
fn streak_is_the_run_of_days_with_sessions() {
  let h: Vec<HistoryEntry> = vec![entry(50), entry(49), entry(49), entry(48), entry(46), entry(45)];
  assert_eq!(streak_since(&h, 50), 3);
  assert_eq!(streak_since(&h, 51), 0);
  assert_eq!(streak_since(&h, 46), 2);
}
