use focusd::config::{pomodoro_preset, Config, Preset};
use focusd::engine::{
  add_time, decrease_sec, get_elapsed_time, next_session, on_finish, render_time, reset_session,
  select_preset, session_record, start_session, start_specific_session, Effect,
};
use focusd::session::SessionType;
use focusd::state::{TimerSnapShot, TimerState};

fn state(t: SessionType, n: u64, remaining: u64, running: bool) -> TimerState {
  TimerState {
    running,
    time_remaining: remaining,
    session_type: t,
    session_number: n,
    added_time: 0,
    category: "General".to_string(),
  }
}

fn short_preset() -> Preset {
  Preset {
    work_minutes: 1,
    short_break_minutes: 2,
    long_break_minutes: 3,
    sessions_before_long_break: 2,
  }
}

#[test]
fn new_state_is_first_work_session_paused() {
  let p = pomodoro_preset();
  let s = TimerState::new(&p, "General".to_string());
  assert!(!s.running);
  assert_eq!(s.time_remaining, 25 * 60);
  assert_eq!(s.session_type, SessionType::Work);
  assert_eq!(s.session_number, 1);
  assert_eq!(s.added_time, 0);
}

#[test]
fn work_is_followed_by_short_break_then_work() {
  let p = pomodoro_preset();
  let mut s = state(SessionType::Work, 1, 100, true);
  let effects = next_session(&mut s, &p);
  assert_eq!(s.session_type, SessionType::ShortBreak);
  assert_eq!(s.session_number, 1);
  assert_eq!(s.time_remaining, 5 * 60);
  assert_eq!(effects.len(), 2);
  match &effects[0] {
    Effect::SessionEnded(old) => {
      assert_eq!(old.session_type, SessionType::Work);
      assert_eq!(old.time_remaining, 100);
    }
    _ => panic!("expected the ended session first"),
  }
  assert!(matches!(effects[1], Effect::StartHook(SessionType::ShortBreak)));
  next_session(&mut s, &p);
  assert_eq!(s.session_type, SessionType::Work);
  assert_eq!(s.session_number, 2);
  assert_eq!(s.time_remaining, 25 * 60);
}

#[test]
fn last_work_session_is_followed_by_long_break_and_count_restarts() {
  let p = pomodoro_preset();
  let mut s = state(SessionType::Work, 4, 10, true);
  next_session(&mut s, &p);
  assert_eq!(s.session_type, SessionType::LongBreak);
  assert_eq!(s.session_number, 4);
  assert_eq!(s.time_remaining, 15 * 60);
  next_session(&mut s, &p);
  assert_eq!(s.session_type, SessionType::Work);
  assert_eq!(s.session_number, 1);
}

#[test]
fn a_full_cycle_returns_to_the_first_work_session() {
  let p = short_preset();
  let mut s = state(SessionType::Work, 1, 60, false);
  let mut long_breaks = 0;
  for _ in 0..(2 * p.sessions_before_long_break) {
    next_session(&mut s, &p);
    if s.session_type == SessionType::LongBreak {
      long_breaks += 1;
    }
  }
  assert_eq!(long_breaks, 1);
  assert_eq!(s.session_type, SessionType::Work);
  assert_eq!(s.session_number, 1);
  assert_eq!(s.time_remaining, 60);
}

#[test]
fn a_session_lasts_exactly_its_time() {
  let p = short_preset();
  let mut s = state(SessionType::Work, 1, 60, true);
  for k in 1..60 {
    let effects = decrease_sec(&mut s, &p);
    assert!(effects.is_empty());
    assert_eq!(s.time_remaining, 60 - k);
    assert_eq!(s.session_type, SessionType::Work);
  }
  let effects = decrease_sec(&mut s, &p);
  assert_eq!(effects.len(), 2);
  match &effects[0] {
    Effect::SessionEnded(old) => assert_eq!(old.time_remaining, 0),
    _ => panic!("expected the ended session first"),
  }
  assert!(matches!(effects[1], Effect::StartHook(SessionType::ShortBreak)));
  assert_eq!(s.session_type, SessionType::ShortBreak);
  assert_eq!(s.time_remaining, 120);
}

#[test]
fn decrease_at_zero_finishes_the_session() {
  let p = short_preset();
  let mut s = state(SessionType::ShortBreak, 1, 0, true);
  let effects = decrease_sec(&mut s, &p);
  assert_eq!(effects.len(), 2);
  assert_eq!(s.session_type, SessionType::Work);
  assert_eq!(s.session_number, 2);
  assert_eq!(s.time_remaining, 60);
}

#[test]
fn on_finish_runs_the_start_hook_once() {
  let p = short_preset();
  let mut s = state(SessionType::Work, 2, 0, true);
  let effects = on_finish(&mut s, &p);
  assert_eq!(effects.len(), 2);
  assert!(matches!(effects[1], Effect::StartHook(SessionType::LongBreak)));
  assert_eq!(s.session_type, SessionType::LongBreak);
}

#[test]
fn render_time_pads_minutes_and_seconds() {
  let s = state(SessionType::Work, 1, 37 * 60 + 18, true);
  assert_eq!(render_time(&s), "37:18");
  let s = state(SessionType::Work, 1, 65, true);
  assert_eq!(render_time(&s), "01:05");
  let s = state(SessionType::Work, 1, 0, true);
  assert_eq!(render_time(&s), "00:00");
  let s = state(SessionType::Work, 1, 125 * 60 + 9, true);
  assert_eq!(render_time(&s), "125:09");
}

#[test]
fn start_and_reset_session() {
  let p = pomodoro_preset();
  let mut s = state(SessionType::ShortBreak, 3, 12, false);
  start_session(&mut s, &p);
  assert!(s.running);
  assert_eq!(s.time_remaining, 300);
  s.time_remaining = 7;
  reset_session(&mut s, &p);
  assert!(!s.running);
  assert_eq!(s.time_remaining, 300);
  assert_eq!(s.session_number, 3);
  reset_session(&mut s, &p);
  assert!(!s.running);
  assert_eq!(s.time_remaining, 300);
}

#[test]
fn start_specific_session_moves_the_count() {
  let p = pomodoro_preset();
  let mut s = state(SessionType::ShortBreak, 2, 12, false);
  let effects = start_specific_session(&mut s, SessionType::Work, &p);
  assert!(matches!(effects[0], Effect::StartHook(SessionType::Work)));
  assert_eq!(s.session_number, 3);
  assert_eq!(s.session_type, SessionType::Work);
  assert!(s.running);
  assert_eq!(s.time_remaining, 1500);

  start_specific_session(&mut s, SessionType::LongBreak, &p);
  assert_eq!(s.session_number, 4);
  assert_eq!(s.time_remaining, 900);

  start_specific_session(&mut s, SessionType::ShortBreak, &p);
  assert_eq!(s.session_number, 4);

  // the session in progress again: the count stays
  start_specific_session(&mut s, SessionType::ShortBreak, &p);
  assert_eq!(s.session_number, 4);
  assert_eq!(s.time_remaining, 300);
}

#[test]
fn select_preset_known_and_unknown() {
  let config = Config::default();
  let mut s = state(SessionType::LongBreak, 3, 5, true);
  let effects = select_preset(&mut s, "deep_work", &config).unwrap();
  assert_eq!(effects.len(), 1);
  match &effects[0] {
    Effect::SetActivePreset(n) => assert_eq!(n, "deep_work"),
    _ => panic!("expected the active preset to be written"),
  }
  assert!(!s.running);
  assert_eq!(s.session_type, SessionType::Work);
  assert_eq!(s.session_number, 1);
  assert_eq!(s.time_remaining, 50 * 60);

  let mut s2 = state(SessionType::LongBreak, 3, 5, true);
  let err = select_preset(&mut s2, "nope", &config).err().unwrap();
  assert_eq!(err, "Preset nope not found");
  assert!(s2.running);
  assert_eq!(s2.session_number, 3);
}

#[test]
fn add_time_extends_the_session() {
  let mut s = state(SessionType::Work, 1, 30, true);
  add_time(&mut s, 120);
  assert_eq!(s.time_remaining, 150);
  assert_eq!(s.added_time, 120);
}

#[test]
fn elapsed_time_and_session_record() {
  let p = pomodoro_preset();
  let mut s = state(SessionType::Work, 1, 1500 - 10, true);
  assert_eq!(get_elapsed_time(&s, &p), 10);
  assert!(session_record(&s, &p).is_none());
  s.time_remaining = 0;
  let rec = session_record(&s, &p).unwrap();
  assert_eq!(rec.planned_duration, 1500);
  assert_eq!(rec.completed_duration, 1500);
  assert!(rec.is_completed);
  assert_eq!(rec.category, "General");
  s.time_remaining = 100;
  let rec = session_record(&s, &p).unwrap();
  assert_eq!(rec.completed_duration, 1400);
  assert!(!rec.is_completed);
  s.added_time = 200;
  let rec = session_record(&s, &p).unwrap();
  assert_eq!(rec.completed_duration, 1600);
  assert!(rec.is_completed);
}

#[test]
fn snapshot_round_trip() {
  let s = state(SessionType::LongBreak, 3, 44, true);
  let snap = TimerSnapShot::from_state(&s);
  let back = TimerState::from_snapshot(&snap);
  assert_eq!(back.running, s.running);
  assert_eq!(back.time_remaining, s.time_remaining);
  assert_eq!(back.session_type, s.session_type);
  assert_eq!(back.session_number, s.session_number);
  assert_eq!(back.added_time, s.added_time);
  assert_eq!(back.category, s.category);
  let copy = s.copy_state();
  assert_eq!(copy.category, "General");
}
