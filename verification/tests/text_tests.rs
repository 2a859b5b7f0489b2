use focusd::session::{
  get_session_type, min_2_digit, name_for_session, next_session, time_for_session, SessionType,
};
use focusd::config::pomodoro_preset;
use focusd::text::{
  concat_str, decimal_string, is_whitespace, pad_right, starts_with, str_equal, str_less, trim,
};

#[test]
fn decimal_rendering() {
  assert_eq!(decimal_string(0), "0");
  assert_eq!(decimal_string(7), "7");
  assert_eq!(decimal_string(10), "10");
  assert_eq!(decimal_string(1234567890), "1234567890");
  assert_eq!(decimal_string(u64::MAX), u64::MAX.to_string());
}

#[test]
fn two_digit_rendering() {
  assert_eq!(min_2_digit(0), "00");
  assert_eq!(min_2_digit(7), "07");
  assert_eq!(min_2_digit(10), "10");
  assert_eq!(min_2_digit(123), "123");
}

#[test]
fn white_space_and_trimming() {
  assert!(is_whitespace(' '));
  assert!(is_whitespace('\t'));
  assert!(is_whitespace('\u{3000}'));
  assert!(!is_whitespace('a'));
  assert_eq!(trim("  work \n"), "work");
  assert_eq!(trim("\u{2003}x y\t"), "x y");
  assert_eq!(trim("   "), "");
  assert_eq!(trim(""), "");
  for s in ["  a ", "b", "\n\tc d\r\n", "\u{a0}e\u{a0}"] {
    assert_eq!(trim(s), s.trim());
  }
}

#[test]
fn comparisons() {
  assert!(str_equal("abc", "abc"));
  assert!(!str_equal("abc", "abd"));
  assert!(!str_equal("ab", "abc"));
  assert!(starts_with("MESSAGE_PAYLOAD: {}", "MESSAGE_PAYLOAD:"));
  assert!(!starts_with("MESSAGE", "MESSAGE_PAYLOAD:"));
  assert!(str_less("deep_work", "pomodoro"));
  assert!(!str_less("pomodoro", "deep_work"));
  assert!(str_less("ab", "abc"));
  assert!(!str_less("abc", "abc"));
  assert_eq!(concat_str("a", "b"), "ab");
}

#[test]
fn session_names_and_parsing() {
  assert_eq!(name_for_session(SessionType::Work), "Work");
  assert_eq!(SessionType::ShortBreak.name(), "Short Break");
  assert_eq!(SessionType::LongBreak.name(), "Long Break");
  assert_eq!(get_session_type("  WORK "), SessionType::Work);
  assert_eq!(SessionType::from_string("Short Break"), SessionType::ShortBreak);
  assert_eq!(SessionType::from_string("short BREAK\n"), SessionType::ShortBreak);
  assert_eq!(SessionType::from_string("anything"), SessionType::LongBreak);
  assert_eq!(SessionType::from_string("Long Break"), SessionType::LongBreak);
}

#[test]
fn session_lengths_and_order() {
  let p = pomodoro_preset();
  assert_eq!(time_for_session(SessionType::Work, &p), 1500);
  assert_eq!(SessionType::ShortBreak.get_time(&p), 300);
  assert_eq!(SessionType::LongBreak.get_time(&p), 900);
  assert_eq!(next_session(SessionType::Work, 1, &p), SessionType::ShortBreak);
  assert_eq!(next_session(SessionType::Work, 4, &p), SessionType::LongBreak);
  assert_eq!(SessionType::ShortBreak.next(4, &p), SessionType::Work);
  assert_eq!(SessionType::LongBreak.next(1, &p), SessionType::Work);
}

#[test]
fn padding_to_a_column() {
  assert_eq!(pad_right("Font", 8), "Font    ");
  assert_eq!(pad_right("Notifications", 4), "Notifications");
  assert_eq!(pad_right("", 3), "   ");
  assert_eq!(pad_right("é", 3), format!("{:<3}", "é"));
  assert_eq!(pad_right("abc", 3), "abc");
}

#[test]
fn session_names_map_back() {
  for t in [SessionType::Work, SessionType::ShortBreak, SessionType::LongBreak] {
    assert_eq!(SessionType::from_string(t.name()), t);
    assert_eq!(get_session_type(name_for_session(t)), t);
  }
  assert_eq!(SessionType::from_string("  WORK \t"), SessionType::Work);
}

#[test]
fn session_names_ignore_case_and_space() {
  for s in ["Work", " short BREAK ", "Long Break", "lunch", "\twork\n"] {
    let plain = s.trim().to_lowercase();
    assert_eq!(SessionType::from_string(s), SessionType::from_string(&plain));
  }
}
