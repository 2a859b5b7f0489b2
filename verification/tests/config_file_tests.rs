use focusd::config::{bool_setting, pomodoro_preset, Config};
use focusd::config_file::{
  with_new_preset, with_preset_value, with_value, without_preset, ConfigFileError, ConfigValue,
};

const SAMPLE: &str = r#"active_preset = "pomodoro"
show_notifications = true # Show notification when session ends

[presets.pomodoro]
work_minutes = 25
short_break_minutes = 5
long_break_minutes = 15
sessions_before_long_break = 4

[presets.deep_work]
work_minutes = 50
short_break_minutes = 10
long_break_minutes = 30
sessions_before_long_break = 4
"#;

fn parse(text: &str) -> toml::Value {
  toml::from_str(text).expect("the edited text is TOML")
}

#[test]
fn setting_a_top_level_value_keeps_the_rest() {
  let text = with_value(SAMPLE, "show_notifications", &ConfigValue::Bool(false)).ok().unwrap();
  let v = parse(&text);
  assert_eq!(v["show_notifications"].as_bool(), Some(false));
  assert_eq!(v["presets"]["deep_work"]["work_minutes"].as_integer(), Some(50));

  let text = with_value(SAMPLE, "daily_goal_minutes", &ConfigValue::Int(45)).ok().unwrap();
  assert_eq!(parse(&text)["daily_goal_minutes"].as_integer(), Some(45));
  assert!(text.contains("# Show notification when session ends"));

  let text =
    with_value(SAMPLE, "active_preset", &ConfigValue::Text("deep_work".to_string())).ok().unwrap();
  assert_eq!(parse(&text)["active_preset"].as_str(), Some("deep_work"));
}

#[test]
fn a_text_that_is_no_toml_is_refused() {
  let r = with_value("this is [ not toml", "font", &ConfigValue::Text("Mono9".to_string()));
  match r {
    Err(ConfigFileError::Invalid(msg)) => assert!(!msg.is_empty()),
    _ => panic!("expected a parse error"),
  }
  assert!(matches!(
    with_preset_value("= = =", "pomodoro", "work_minutes", 3),
    Err(ConfigFileError::Invalid(_))
  ));
  assert!(matches!(without_preset("[[", "pomodoro"), Err(ConfigFileError::Invalid(_))));
}

#[test]
fn setting_a_preset_field() {
  let text = with_preset_value(SAMPLE, "pomodoro", "work_minutes", 30).ok().unwrap();
  let v = parse(&text);
  assert_eq!(v["presets"]["pomodoro"]["work_minutes"].as_integer(), Some(30));
  assert_eq!(v["presets"]["deep_work"]["work_minutes"].as_integer(), Some(50));
}

#[test]
fn setting_a_preset_field_errors() {
  assert!(matches!(
    with_preset_value(SAMPLE, "focus", "work_minutes", 30),
    Err(ConfigFileError::PresetMissing)
  ));
  assert!(matches!(
    with_preset_value("active_preset = \"x\"\n", "x", "work_minutes", 30),
    Err(ConfigFileError::NoPresets)
  ));
  assert!(matches!(
    with_preset_value("[presets]\nx = 1\n", "x", "work_minutes", 30),
    Err(ConfigFileError::PresetNotTable)
  ));
}

#[test]
fn adding_a_preset() {
  let text = with_new_preset(SAMPLE, "focus", &pomodoro_preset()).ok().unwrap();
  let v = parse(&text);
  assert_eq!(v["presets"]["focus"]["work_minutes"].as_integer(), Some(25));
  assert_eq!(v["presets"]["focus"]["short_break_minutes"].as_integer(), Some(5));
  assert_eq!(v["presets"]["focus"]["long_break_minutes"].as_integer(), Some(15));
  assert_eq!(v["presets"]["focus"]["sessions_before_long_break"].as_integer(), Some(4));
  assert!(matches!(
    with_new_preset(SAMPLE, "deep_work", &pomodoro_preset()),
    Err(ConfigFileError::PresetExists)
  ));
  assert!(matches!(
    with_new_preset("font = \"Mono9\"\n", "focus", &pomodoro_preset()),
    Err(ConfigFileError::NoPresets)
  ));
}

#[test]
fn removing_a_preset() {
  let text = without_preset(SAMPLE, "deep_work").ok().unwrap();
  let v = parse(&text);
  assert!(v["presets"].get("deep_work").is_none());
  assert!(v["presets"].get("pomodoro").is_some());
  let same = without_preset(SAMPLE, "absent").ok().unwrap();
  assert_eq!(parse(&same), parse(SAMPLE));
  assert!(matches!(without_preset("a = 1\n", "pomodoro"), Err(ConfigFileError::NoPresets)));
}

#[test]
fn config_file_error_messages() {
  assert_eq!(ConfigFileError::NoPresets.message(), "presets not found");
  assert_eq!(ConfigFileError::PresetMissing.message(), "preset not found");
  assert_eq!(ConfigFileError::PresetNotTable.message(), "preset is not a table");
  assert_eq!(ConfigFileError::PresetExists.message(), "preset already exists");
  assert_eq!(ConfigFileError::Invalid("bad".to_string()).message(), "bad");
}

#[test]
fn reading_on_off_settings() {
  let mut config = Config::default();
  config.tui_show_stats = false;
  assert_eq!(bool_setting(&config, "show_notifications"), Some(true));
  assert_eq!(bool_setting(&config, "tui_show_stats"), Some(false));
  assert_eq!(bool_setting(&config, "tui_show_progress"), Some(true));
  assert_eq!(bool_setting(&config, "tui_show_ascii_art"), Some(true));
  assert_eq!(bool_setting(&config, "daily_goal_minutes"), None);
}

#[test]
fn edits_read_back_and_keep_the_rest() {
  let text = with_new_preset(SAMPLE, "focus", &focusd::config::Preset {
    work_minutes: 40,
    short_break_minutes: 7,
    long_break_minutes: 20,
    sessions_before_long_break: 3,
  })
  .ok()
  .unwrap();
  let v = parse(&text);
  assert_eq!(v["presets"]["focus"]["short_break_minutes"].as_integer(), Some(7));
  assert_eq!(v["presets"]["focus"]["work_minutes"].as_integer(), Some(40));
  assert_eq!(v["active_preset"].as_str(), Some("pomodoro"));
  let text = with_value(&text, "active_preset", &ConfigValue::Text("focus".to_string())).ok().unwrap();
  let text = without_preset(&text, "pomodoro").ok().unwrap();
  let v = parse(&text);
  assert_eq!(v["active_preset"].as_str(), Some("focus"));
  assert!(v["presets"].get("pomodoro").is_none());
  assert_eq!(v["presets"]["deep_work"]["long_break_minutes"].as_integer(), Some(30));
  assert_eq!(v["show_notifications"].as_bool(), Some(true));
}
