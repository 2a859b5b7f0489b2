use focusd::config::{pomodoro_preset, Config};
use focusd::daemon::Message;
use focusd::merge_block::MergeBlock;
use focusd::pages::{
  art_frame_index, header_text, new_area, preset_line, split_vertical, Area, HistoryPage, TimerPage,
};
use focusd::session::SessionType;
use focusd::settings::{
  AnySettingItem, EditOutcome, InputMode, SettingsAction, SettingsItem, SettingsPage,
  SettingsSubItems,
};
use focusd::state::TimerState;
use focusd::tui::{handle_key_event, page_title, select_page, Key, KeyAction, Pages, Popup};

#[test]
fn keys_map_to_actions() {
  assert_eq!(
    handle_key_event(Pages::Timer, false, false, Key::Char(' '), false),
    KeyAction::Send(Message::ToggleSession)
  );
  assert_eq!(handle_key_event(Pages::Timer, false, true, Key::Char('q'), false), KeyAction::HidePopup);
  assert_eq!(handle_key_event(Pages::Timer, false, false, Key::Char('q'), false), KeyAction::Quit);
  assert_eq!(handle_key_event(Pages::Stats, false, false, Key::Char('c'), true), KeyAction::Quit);
  assert_eq!(handle_key_event(Pages::Stats, false, false, Key::Char('c'), false), KeyAction::Nothing);
  assert_eq!(handle_key_event(Pages::Stats, false, false, Key::Down, false), KeyAction::Nothing);
  assert_eq!(handle_key_event(Pages::History, false, false, Key::Char('j'), false), KeyAction::Down);
  assert_eq!(handle_key_event(Pages::Settings, true, false, Key::Char('q'), false), KeyAction::EditSetting);
  assert_eq!(handle_key_event(Pages::Settings, false, false, Key::Esc, false), KeyAction::ExitSubMenu);
  assert_eq!(handle_key_event(Pages::Timer, false, false, Key::Enter, false), KeyAction::SelectPreset);
  assert_eq!(handle_key_event(Pages::Timer, false, false, Key::Char('['), false), KeyAction::SelectPage(1));
  assert_eq!(handle_key_event(Pages::Timer, false, false, Key::Char(']'), false), KeyAction::SelectPage(-1));
}

#[test]
fn pages_cycle() {
  assert_eq!(select_page(Pages::Timer, 1).index(), Pages::Stats.index());
  assert_eq!(select_page(Pages::Timer, -1).index(), Pages::Settings.index());
  assert_eq!(select_page(Pages::Settings, 1).index(), Pages::Timer.index());
  assert_eq!(page_title(Pages::History), "History");
  let mut p = Pages::History;
  for _ in 0..4 {
    p = select_page(p, 1);
  }
  assert!(p == Pages::History);
}

#[test]
fn popup_keymaps() {
  let mut popup = Popup::default();
  assert!(!popup.showen);
  popup.toggle();
  assert!(popup.showen);
  popup.hide_popup();
  assert!(!popup.showen);
  assert_eq!(popup.get_keymaps(Pages::Stats, true).len(), 7);
  let timer = popup.get_keymaps(Pages::Timer, true);
  assert_eq!(timer.len(), 10);
  assert_eq!(timer[7], ("Enter".to_string(), "Select the preset".to_string()));
  assert_eq!(popup.get_keymaps(Pages::Timer, false).len(), 9);
  assert_eq!(popup.get_keymaps(Pages::Settings, false).len(), 11);
  let stats = popup.get_keymaps(Pages::Stats, true);
  assert!(stats.contains(&("[".to_string(), "Next page".to_string())));
  assert!(stats.contains(&("]".to_string(), "Previous page".to_string())));
}

#[test]
fn history_scrolling() {
  let mut page = HistoryPage::default();
  page.up();
  assert_eq!(page.crr_history_index, 0);
  page.down();
  assert_eq!(page.crr_history_index, 1);
  let (start, end) = page.visible_rows(30, 12);
  assert_eq!((start, end), (1, 11));
  assert_eq!(page.max_history_index, 20);
  let (start, end) = page.visible_rows(5, 12);
  assert_eq!((start, end), (1, 5));
  assert_eq!(page.max_history_index, 0);
}

#[test]
fn timer_page_cursor() {
  let mut page = TimerPage::default();
  page.up(3);
  assert_eq!(page.preset_selected_index, 2);
  page.down(3);
  assert_eq!(page.preset_selected_index, 0);
  page.preset_selected_index = 9;
  page.clamp_selection(3);
  assert_eq!(page.preset_selected_index, 2);
  let names = vec!["a".to_string(), "b".to_string(), "c".to_string()];
  assert_eq!(page.select_preset(&names), Some("c".to_string()));
}

#[test]
fn geometry() {
  let (l, r) = split_vertical(Area { x: 0, y: 0, width: 11, height: 4 });
  assert_eq!(l, Area { x: 0, y: 0, width: 6, height: 4 });
  assert_eq!(r, Area { x: 5, y: 0, width: 6, height: 4 });
  let (l, r) = split_vertical(Area { x: 65530, y: 65534, width: 5, height: 4 });
  assert_eq!(l, Area { x: 65530, y: 65534, width: 3, height: 1 });
  assert_eq!(r, Area { x: 65532, y: 65534, width: 3, height: 1 });
  let (l, r) = split_vertical(Area { x: 65535, y: 0, width: 0, height: 2 });
  assert_eq!(l, Area { x: 65535, y: 0, width: 0, height: 2 });
  assert_eq!(r, Area { x: 65535, y: 0, width: 0, height: 2 });
  assert_eq!(new_area(65000, 10, 1000, 3), Area { x: 65000, y: 10, width: 535, height: 3 });
  let b = MergeBlock::new("Tasks").top().left();
  let layout = b.layout(Area { x: 5, y: 3, width: 10, height: 6 }, &vec![(7, 3), (2, 3), (9, 4)]);
  let (a, sep) = layout.separator.unwrap();
  assert_eq!(a, Area { x: 4, y: 3, width: 12, height: 1 });
  assert_eq!(sep, "┬─ Tasks───┤");
  assert_eq!(layout.tees, vec![Area { x: 7, y: 3, width: 1, height: 1 }]);
  assert_eq!(layout.left_border, Some(Area { x: 4, y: 4, width: 1, height: 5 }));
  assert_eq!(layout.new_tee, Some((4, 9)));
  assert_eq!(layout.content, Area { x: 6, y: 5, width: 8, height: 3 });
  let plain = MergeBlock::new("").no_padding().layout(Area { x: 0, y: 0, width: 4, height: 2 }, &vec![]);
  assert!(plain.separator.is_none());
  assert_eq!(plain.content, Area { x: 0, y: 0, width: 4, height: 2 });
  let edge = MergeBlock::new("").top().layout(Area { x: 65530, y: 0, width: 5, height: 3 }, &vec![]);
  let (a, sep) = edge.separator.unwrap();
  assert_eq!(a, Area { x: 65529, y: 0, width: 6, height: 1 });
  assert_eq!(sep, "├─────┤");
  assert_eq!(edge.content, Area { x: 65531, y: 2, width: 3, height: 0 });
}

#[test]
fn header() {
  let s = TimerState {
    running: true,
    time_remaining: 61,
    session_type: SessionType::Work,
    session_number: 2,
    added_time: 0,
    category: "General".to_string(),
  };
  assert_eq!(header_text(&s, &pomodoro_preset()), "Work 2/4  \u{f04c} 01:01");
}

#[test]
fn settings_navigation() {
  let config = Config::default();
  let mut page = SettingsPage::default();
  page.down();
  assert_eq!(page.selected_setting_index, 1);
  let a = page.handle_right(&config);
  assert!(matches!(a, SettingsAction::ToggleConfig("show_notifications")));
  page.down();
  let a = page.handle_right(&config);
  assert!(matches!(a, SettingsAction::Nothing));
  assert!(page.in_sub_menu);
  assert_eq!(page.get_items_to_render()[0], AnySettingItem::Sub(SettingsSubItems::TuiProgress));
  page.down();
  page.down();
  page.down();
  match page.handle_right(&config) {
    SettingsAction::SetFont(f) => assert_eq!(f, focusd::config::Fonts::TubesRegular),
    _ => panic!("expected a font"),
  }
  let a = page.handle_left(&config);
  assert!(matches!(a, SettingsAction::Nothing));
  assert!(!page.in_sub_menu);
  page.down();
  match page.handle_right(&config) {
    SettingsAction::SetDailyGoal(g) => assert_eq!(g, 5),
    _ => panic!("expected a goal"),
  }
  match page.handle_left(&config) {
    SettingsAction::SetDailyGoal(g) => assert_eq!(g, 0),
    _ => panic!("expected a goal"),
  }
  page.down();
  page.handle_right(&config);
  assert_eq!(page.get_items_to_render().len(), 11);
  match page.handle_right(&config) {
    SettingsAction::StartEditing(s) => assert_eq!(s, ""),
    _ => panic!("expected editing"),
  }
  assert!(page.is_editing());
  assert!(matches!(page.handle_editing_key(Key::Char('x')), EditOutcome::Forward));
  assert!(matches!(page.handle_editing_key(Key::Enter), EditOutcome::Save("hook_pause")));
  assert_eq!(page.input_mode, InputMode::Normal);
  page.exit_sub_menu();
  assert!(!page.in_sub_menu);
  assert_eq!(page.settings_items[page.selected_setting_index], SettingsItem::Hooks);
}

#[test]
fn preset_lines_and_art_frames() {
  let p = pomodoro_preset();
  assert_eq!(preset_line("pomodoro", true, &p), "> pomodoro 25/5/15 x 4");
  assert_eq!(preset_line("deep_work", false, &p), "  deep_work 25/5/15 x 4");
  assert_eq!(art_frame_index(1200, true, 4), 3);
  assert_eq!(art_frame_index(1600, true, 4), 0);
  assert_eq!(art_frame_index(399, true, 5), 0);
  assert_eq!(art_frame_index(12345, false, 5), 0);
}

#[test]
fn pages_go_round() {
  for p in [Pages::Timer, Pages::Stats, Pages::History, Pages::Settings] {
    assert_eq!(select_page(select_page(p, 1), -1).index(), p.index());
    assert_eq!(select_page(p, 4).index(), p.index());
  }
}

#[test]
fn preset_cursor_goes_round() {
  for count in 1..5usize {
    for i in 0..count {
      let mut page = TimerPage { preset_selected_index: i };
      page.up(count);
      page.down(count);
      assert_eq!(page.preset_selected_index, i);
      page.down(count);
      page.up(count);
      assert_eq!(page.preset_selected_index, i);
    }
  }
}

#[test]
fn an_empty_block_at_the_bottom_edge_has_no_border() {
  let b = MergeBlock::new("x").left().no_padding();
  let layout = b.layout(Area { x: 1, y: 65535, width: 3, height: 0 }, &vec![]);
  assert!(layout.left_border.is_none());
  assert!(layout.new_tee.is_none());
  assert_eq!(layout.content, Area { x: 1, y: 65535, width: 3, height: 0 });
}
