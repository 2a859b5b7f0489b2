use focusd::config::{
  find_preset, first_other_preset, get_crr_preset, plan_preset_creation, plan_preset_deletion,
  pomodoro_preset, sorted_preset_names, Config, Fonts, Preset,
};

fn preset(w: u64) -> Preset {
  Preset {
    work_minutes: w,
    short_break_minutes: 1,
    long_break_minutes: 2,
    sessions_before_long_break: 3,
  }
}

#[test]
fn default_configuration() {
  let c = Config::default();
  assert_eq!(c.active_preset, "pomodoro");
  assert_eq!(c.presets.len(), 2);
  assert!(c.show_notifications);
  assert_eq!(c.daily_goal_minutes, 0);
  assert_eq!(c.font, Fonts::Terminus);
  let p = get_crr_preset(&c);
  assert_eq!(p.work_minutes, 25);
  assert_eq!(p.short_break_minutes, 5);
  assert_eq!(p.long_break_minutes, 15);
  assert_eq!(p.sessions_before_long_break, 4);
}

#[test]
fn active_preset_and_fallback() {
  let mut c = Config::default();
  c.active_preset = "deep_work".to_string();
  assert_eq!(get_crr_preset(&c).work_minutes, 50);
  c.active_preset = "missing".to_string();
  assert_eq!(get_crr_preset(&c).work_minutes, pomodoro_preset().work_minutes);
  assert!(find_preset(&c.presets, "deep_work").is_some());
  assert!(find_preset(&c.presets, "missing").is_none());
}

#[test]
fn sorted_names() {
  let presets = vec![
    ("zeta".to_string(), preset(1)),
    ("alpha".to_string(), preset(2)),
    ("mid".to_string(), preset(3)),
  ];
  assert_eq!(sorted_preset_names(&presets), vec!["alpha", "mid", "zeta"]);
}

#[test]
fn deletion_plans() {
  let mut c = Config::default();
  assert_eq!(plan_preset_deletion(&c, "deep_work"), Ok(None));
  assert_eq!(plan_preset_deletion(&c, "pomodoro"), Ok(Some("deep_work".to_string())));
  c.presets.truncate(1);
  assert_eq!(
    plan_preset_deletion(&c, "pomodoro"),
    Err("cannot delete the last preset".to_string())
  );
  let presets = vec![
    ("b".to_string(), preset(1)),
    ("c".to_string(), preset(2)),
    ("a".to_string(), preset(3)),
  ];
  assert_eq!(first_other_preset(&presets, "a"), Some("b".to_string()));
  assert_eq!(first_other_preset(&presets, "b"), Some("a".to_string()));
  assert_eq!(first_other_preset(&presets[..1].to_vec(), "b"), None);
}

#[test]
fn creation_plans() {
  let c = Config::default();
  assert!(plan_preset_creation(&c, "pomodoro").is_err());
  assert_eq!(
    plan_preset_creation(&c, "pomodoro").err().unwrap(),
    "preset already exists"
  );
  let p = plan_preset_creation(&c, "new").unwrap();
  assert_eq!(p.work_minutes, 25);
}

#[test]
fn fonts_cycle() {
  assert_eq!(Fonts::Terminus.next_font(), Fonts::TubesRegular);
  assert_eq!(Fonts::TubesRegular.next_font(), Fonts::AnsiRegular);
  assert_eq!(Fonts::SmBlock.name(), "SmBlock");
  let mut f = Fonts::Mono9;
  for _ in 0..9 {
    f = f.next_font();
  }
  assert_eq!(f, Fonts::Mono9);
}
