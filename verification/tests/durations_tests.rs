use focusd::durations::{fmt_duration_short, render_duration, times_ago_text};

#[test]
fn render_duration_forms() {
  assert_eq!(render_duration(0), "0s");
  assert_eq!(render_duration(59), "59s");
  assert_eq!(render_duration(60), "1m");
  assert_eq!(render_duration(125), "2m 5s");
  assert_eq!(render_duration(3600), "1h");
  assert_eq!(render_duration(3600 + 300 + 7), "1h 5m");
  assert_eq!(render_duration(7200 + 59), "2h");
  assert_eq!(render_duration(7500), "2h 5m");
}

#[test]
fn short_duration_forms() {
  assert_eq!(fmt_duration_short(42), "42s");
  assert_eq!(fmt_duration_short(60), "1m");
  assert_eq!(fmt_duration_short(3599), "59m");
  assert_eq!(fmt_duration_short(3600), "1h");
  assert_eq!(fmt_duration_short(3600 + 5 * 60), "1h 05m");
  assert_eq!(fmt_duration_short(36000 + 45 * 60), "10h 45m");
}

#[test]
fn ago_forms() {
  assert_eq!(times_ago_text(-5), "Just Now");
  assert_eq!(times_ago_text(0), "Just Now");
  assert_eq!(times_ago_text(59), "Just Now");
  assert_eq!(times_ago_text(60), "1 minutes ago");
  assert_eq!(times_ago_text(3599), "59 minutes ago");
  assert_eq!(times_ago_text(3600), "1 hours ago");
  assert_eq!(times_ago_text(86399), "23 hours ago");
  assert_eq!(times_ago_text(86400 * 3 + 5), "3 days ago");
}

#[test]
fn times_ago_from_local_times() {
  let fmt = "%Y-%m-%d %H:%M:%S";
  let ten_minutes = (chrono::Local::now() - chrono::Duration::seconds(630)).format(fmt).to_string();
  assert_eq!(focusd::durations::times_ago(&ten_minutes), Some("10 minutes ago".to_string()));
  let three_days = (chrono::Local::now() - chrono::Duration::days(3) - chrono::Duration::seconds(30))
    .format(fmt)
    .to_string();
  assert_eq!(focusd::durations::times_ago(&three_days), Some("3 days ago".to_string()));
  let later = (chrono::Local::now() + chrono::Duration::hours(2)).format(fmt).to_string();
  assert_eq!(focusd::durations::times_ago(&later), Some("Just Now".to_string()));
  assert_eq!(focusd::durations::times_ago("yesterday"), None);
}

#[test]
fn times_ago_reads_the_given_time() {
  let fmt = "%Y-%m-%d %H:%M:%S";
  let two_hours = (chrono::Local::now() - chrono::Duration::seconds(7230)).format(fmt).to_string();
  assert_eq!(focusd::durations::times_ago(&two_hours), Some("2 hours ago".to_string()));
  assert_eq!(focusd::durations::times_ago("2024-13-40 10:00:00"), None);
  assert_eq!(focusd::durations::times_ago(""), None);
}
