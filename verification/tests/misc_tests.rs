use focusd::config::{pomodoro_preset, Fonts};
use focusd::cycle::{cycle_index, cycle_item};
use focusd::figlet::big_text;
use focusd::hooks::{command_parts, pause_hooks, resume_hooks, session_start_hook};
use focusd::ignore::IgnoreType;
use focusd::notification::completion_notes;
use focusd::profile::Profile;
use focusd::session::SessionType;
use focusd::state::TimerState;
use focusd::waybar::{
  category_progress, completed_sessions, status_classes, streak_unit, tooltip, waybar_status,
};

#[test]
fn cycling() {
  assert_eq!(cycle_index(0, 4, 1), 1);
  assert_eq!(cycle_index(0, 4, -1), 3);
  assert_eq!(cycle_index(3, 4, 1), 0);
  assert_eq!(cycle_index(2, 4, -7), 3);
  assert_eq!(cycle_index(cycle_index(2, 5, 3), 5, -3), 2);
  let items = [10, 20, 30];
  assert_eq!(cycle_item(20, &items, 1), 30);
  assert_eq!(cycle_item(30, &items, 1), 10);
  assert_eq!(cycle_item(99, &items, 1), 20);
  assert_eq!(cycle_item(10, &items, -1), 30);
}

#[test]
fn profile_paths() {
  assert_eq!(Profile::Dev.socket_path(), "/tmp/focusd-dev.sock");
  assert_eq!(Profile::Prod.socket_path(), "/tmp/focusd.sock");
  assert_eq!(Profile::Prod.db_relative_path(), ".local/share/focusd/db/history.db");
  assert_eq!(Profile::Dev.config_relative_path(), ".config/focusd/config-dev.toml");
}

#[test]
fn hook_commands() {
  assert_eq!(command_parts("  notify-send  'hi'\tthere "), vec!["notify-send", "'hi'", "there"]);
  assert!(command_parts("   ").is_empty());
  assert_eq!(command_parts("ls"), vec!["ls"]);
  let mut c = focusd::config::Config::default();
  c.hook_start_work = "echo work".to_string();
  assert_eq!(session_start_hook(&c, SessionType::Work), "echo work");
  assert_eq!(session_start_hook(&c, SessionType::LongBreak), "");
}

#[test]
fn waybar_parts() {
  let (alt, class) = status_classes(SessionType::ShortBreak, false);
  assert_eq!(alt, "short-break-paused");
  assert_eq!(class, vec!["short-break", "paused"]);
  let (alt, class) = status_classes(SessionType::Work, true);
  assert_eq!(alt, "work");
  assert_eq!(class, vec!["work"]);
  assert_eq!(streak_unit(1), "day");
  assert_eq!(streak_unit(2), "days");
  assert_eq!(completed_sessions(3), 2);
  assert_eq!(category_progress("1m", "0s"), "1m / 0s");
  assert_eq!(
    tooltip("Work", "General", 2, 4, "Short Break", "5m", "1h 38m", "1m / 0s", 16, "days"),
    "Work Session · General,\nCycle 2/4\n\nNext Session: Short Break (5m),\n\nFocused today: 1h 38m,\nGeneral: 1m / 0s,\nCurrent Streak: 16 days\n"
  );
}

#[test]
fn notifications() {
  let p = pomodoro_preset();
  let s = TimerState {
    running: true,
    time_remaining: 0,
    session_type: SessionType::Work,
    session_number: 4,
    added_time: 0,
    category: "General".to_string(),
  };
  assert!(completion_notes(&s, &p, false, 0, 0).is_empty());
  let notes = completion_notes(&s, &p, true, 60, 100);
  assert_eq!(notes.len(), 1);
  assert_eq!(notes[0].summary, "Timer for Work finished");
  assert_eq!(
    notes[0].body,
    "Congrulations in completing timer for 25 minutes, Now it's time for Long Break"
  );
  let notes = completion_notes(&s, &p, true, 60, 3700);
  assert_eq!(notes.len(), 2);
  assert_eq!(notes[1].summary, "Daily Goal completed");
  assert_eq!(notes[1].body, "Congrulations in completing your daily focus goal of 60 minutes");
  let notes = completion_notes(&s, &p, true, 10, 5000);
  assert_eq!(notes.len(), 1);
}

#[test]
fn big_text_draws_bundled_fonts() {
  let t = big_text("12", Fonts::SmBlock).unwrap();
  assert_ne!(t, "12");
  assert!(t.lines().count() > 1);
  assert_eq!(big_text("12", Fonts::Terminus).unwrap(), "12");
  for font in [Fonts::Future, Fonts::Mono9, Fonts::Mono12] {
    let t = big_text("25:00", font).unwrap();
    assert_ne!(t, "25:00");
    assert!(t.lines().count() > 1);
  }
  assert_ne!(big_text("1", Fonts::Mono9), big_text("1", Fonts::Mono12));
}

#[test]
fn ignoring_results() {
  let r: Result<u8, String> = Err("x".to_string());
  r.ignore_type();
}

#[test]
fn pause_and_resume_hooks() {
  let mut c = focusd::config::Config::default();
  c.hook_pause = "notify pause".to_string();
  c.hook_pause_short_break = "pause short".to_string();
  c.hook_resume = "notify resume".to_string();
  c.hook_resume_long_break = "resume long".to_string();
  c.hook_resume_work = "resume work".to_string();
  assert_eq!(pause_hooks(&c, SessionType::ShortBreak), vec!["notify pause", "pause short"]);
  assert_eq!(pause_hooks(&c, SessionType::Work), vec!["notify pause", ""]);
  assert_eq!(resume_hooks(&c, SessionType::LongBreak), vec!["notify resume", "resume long"]);
  assert_eq!(resume_hooks(&c, SessionType::Work), vec!["notify resume", "resume work"]);
}

#[test]
fn waybar_status_of_a_paused_work_session() {
  let state = TimerState {
    running: false,
    time_remaining: 754,
    session_type: SessionType::Work,
    session_number: 3,
    added_time: 0,
    category: "Reading".to_string(),
  };
  let s = waybar_status(&state, &pomodoro_preset(), 3660, 4, 90, 1500, 0, 2);
  assert_eq!(s.text, "12:34");
  assert_eq!(s.alt, "work-paused");
  assert_eq!(s.class, vec!["work", "paused"]);
  assert_eq!(s.session, "Work");
  assert_eq!(s.next_session, "Short Break");
  assert_eq!(s.sessions_today, 4);
  assert_eq!(s.focused_today, "1h 1m");
  assert_eq!(s.daily_goal, "1h 30m");
  assert_eq!(s.current_streak, 2);
  assert_eq!(s.work_sessions_before_long_break, 4);
  assert_eq!(s.completed_sessions, 2);
  assert_eq!(s.category, "Reading");
  assert_eq!(s.category_progress, "25m / 0s");
  assert_eq!(
    s.tooltip,
    "Work Session · Reading,\nCycle 3/4\n\nNext Session: Short Break (5m),\n\nFocused today: 1h 1m,\nReading: 25m / 0s,\nCurrent Streak: 2 days\n"
  );
}

#[test]
fn waybar_status_counts() {
  let mut state = TimerState::new(&pomodoro_preset(), "General".to_string());
  state.running = true;
  state.session_type = SessionType::LongBreak;
  state.session_number = 4;
  let s = waybar_status(&state, &pomodoro_preset(), 0, -1, 0, 0, 0, 1);
  assert_eq!(s.alt, "long-break");
  assert_eq!(s.class, vec!["long-break"]);
  assert_eq!(s.sessions_today, 0);
  assert_eq!(s.current_streak, 1);
  assert_eq!(s.next_session, "Work");
  assert_eq!(s.daily_goal, "0s");
  assert!(s.tooltip.ends_with("Current Streak: 1 day\n"));
}
