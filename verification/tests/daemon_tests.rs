use focusd::config::{pomodoro_preset, Config};
use focusd::daemon::{
  contains_payload, handle_command, handle_payload, parse_message, payload_json, Message,
  PayloadMessage,
  PayloadType, PayloadValue, Reply,
};
use focusd::engine::Effect;
use focusd::session::SessionType;
use focusd::state::TimerState;

fn state(t: SessionType, remaining: u64, running: bool) -> TimerState {
  TimerState {
    running,
    time_remaining: remaining,
    session_type: t,
    session_number: 1,
    added_time: 0,
    category: "General".to_string(),
  }
}

fn text(r: &Reply) -> String {
  match r {
    Reply::Text(t) => t.clone(),
    Reply::Snapshot => panic!("expected text"),
  }
}

#[test]
fn message_texts() {
  assert_eq!(Message::Running.to_text(), "RUNNING");
  assert_eq!(Message::ToggleSession.to_text(), "ToggleSession");
  assert_eq!(PayloadMessage::AddMinutes.to_text(), "AddMinutes");
  assert_eq!(parse_message("NextSession"), Some(Message::NextSession));
  assert_eq!(parse_message("nextsession"), None);
}

#[test]
fn payload_marker() {
  assert!(contains_payload("  MESSAGE_PAYLOAD: {\"message\":\"x\"}"));
  assert!(!contains_payload("ToggleSession"));
}

#[test]
fn payload_json_text() {
  assert_eq!(
    payload_json("MESSAGE_PAYLOAD: {\"message\":\"AddMinutes\",\"payload\":5}"),
    Some("{\"message\":\"AddMinutes\",\"payload\":5}".to_string())
  );
  assert_eq!(payload_json("MESSAGE_PAYLOAD: "), Some(String::new()));
  assert_eq!(payload_json("MESSAGE_PAYLOAD:{}"), None);
  assert_eq!(payload_json("GetSession"), None);
}

#[test]
fn running_and_snapshot_and_unknown() {
  let p = pomodoro_preset();
  let mut s = state(SessionType::Work, 100, false);
  let (r, e) = handle_command(&mut s, "RUNNING", &p);
  assert_eq!(text(&r), "YES");
  assert!(e.is_empty());
  let (r, _) = handle_command(&mut s, "GetSession", &p);
  assert!(matches!(r, Reply::Snapshot));
  let (r, _) = handle_command(&mut s, "Bogus", &p);
  assert_eq!(text(&r), "Command not found");
  assert_eq!(s.time_remaining, 100);
}

#[test]
fn toggle_pause_resume() {
  let p = pomodoro_preset();
  let mut s = state(SessionType::Work, 1500, false);
  let (r, e) = handle_command(&mut s, "ToggleSession", &p);
  assert!(s.running);
  assert_eq!(text(&r), "Work resumed time remaining: 25:00");
  assert!(matches!(e[0], Effect::StartHook(SessionType::Work)));

  s.time_remaining = 1499;
  let (r, e) = handle_command(&mut s, "PauseSession", &p);
  assert!(!s.running);
  assert_eq!(text(&r), "Work paused time remaining: 24:59");
  assert!(matches!(e[0], Effect::PauseHook(SessionType::Work)));

  let (r, e) = handle_command(&mut s, "ResumeSession", &p);
  assert!(s.running);
  assert_eq!(text(&r), "Work resumed time remaining: 24:59");
  assert!(matches!(e[0], Effect::ResumeHook(SessionType::Work)));

  let (_, e) = handle_command(&mut s, "ToggleSession", &p);
  assert!(!s.running);
  assert!(matches!(e[0], Effect::PauseHook(SessionType::Work)));
}

#[test]
fn start_next_reset_stop() {
  let p = pomodoro_preset();
  let mut s = state(SessionType::Work, 10, false);
  let (r, _) = handle_command(&mut s, "StartSession", &p);
  assert_eq!(text(&r), "Work Session started");
  assert!(s.running);
  assert_eq!(s.time_remaining, 1500);
  let (r, e) = handle_command(&mut s, "NextSession", &p);
  assert_eq!(text(&r), "Short Break Session started");
  assert_eq!(e.len(), 2);
  let (r, _) = handle_command(&mut s, "ResetSession", &p);
  assert_eq!(text(&r), "Short Break Session restarted");
  assert!(!s.running);
  let (r, e) = handle_command(&mut s, "StopDaemon", &p);
  assert_eq!(text(&r), "OK");
  assert!(matches!(e[0], Effect::StopDaemon));
}

#[test]
fn payload_commands() {
  let config = Config::default();
  let mut s = state(SessionType::Work, 10, false);
  let (r, e) = handle_payload(
    &mut s,
    &PayloadType {
      message: "SelectSession".to_string(),
      payload: PayloadValue::Str("long break".to_string()),
    },
    &config,
  );
  assert_eq!(r, "Long Break Session started");
  assert!(matches!(e[0], Effect::StartHook(SessionType::LongBreak)));
  assert_eq!(s.session_number, 4);
  assert_eq!(s.time_remaining, 900);

  let (r, _) = handle_payload(
    &mut s,
    &PayloadType {
      message: "SelectPreset".to_string(),
      payload: PayloadValue::Str("deep_work".to_string()),
    },
    &config,
  );
  assert_eq!(r, "Preset deep_work selected");
  assert_eq!(s.time_remaining, 3000);

  let (r, e) = handle_payload(
    &mut s,
    &PayloadType {
      message: "SelectPreset".to_string(),
      payload: PayloadValue::Str("missing".to_string()),
    },
    &config,
  );
  assert_eq!(r, "Preset missing not found");
  assert!(e.is_empty());

  let (r, _) = handle_payload(
    &mut s,
    &PayloadType { message: "AddMinutes".to_string(), payload: PayloadValue::U64(2) },
    &config,
  );
  assert_eq!(r, "");
  assert_eq!(s.time_remaining, 3120);
  assert_eq!(s.added_time, 120);

  let (r, e) = handle_payload(
    &mut s,
    &PayloadType { message: "Other".to_string(), payload: PayloadValue::Other },
    &config,
  );
  assert_eq!(r, "");
  assert!(e.is_empty());
}

#[test]
fn toggling_twice_gives_back_the_state() {
  let p = pomodoro_preset();
  for running in [false, true] {
    let mut s = state(SessionType::ShortBreak, 42, running);
    handle_command(&mut s, "ToggleSession", &p);
    assert_eq!(s.running, !running);
    handle_command(&mut s, "ToggleSession", &p);
    assert_eq!(s.running, running);
    assert_eq!(s.time_remaining, 42);
    assert_eq!(s.session_type, SessionType::ShortBreak);
    handle_command(&mut s, "PauseSession", &p);
    handle_command(&mut s, "PauseSession", &p);
    assert!(!s.running);
    assert_eq!(s.time_remaining, 42);
  }
}
