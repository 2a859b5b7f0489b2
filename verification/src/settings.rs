//! The settings page: its menu and sub menus, what the keys do to them,
//! and which configuration change each choice asks for.

use vstd::prelude::*;
use crate::config::{Config, Fonts, font_name};
use crate::durations::{duration_text, render_duration};
use crate::tui::Key;

verus! {

/// The entries of the settings menu.
#[derive(Clone, Copy, Debug, PartialEq, Eq, Structural)]
pub enum SettingsItem {
    Preset,
    Notification,
    Tui,
    DailyGoal,
    Hooks,
    Sounds,
}

/// The entries of the sub menus.
#[derive(Clone, Copy, Debug, PartialEq, Eq, Structural)]
pub enum SettingsSubItems {
    TuiProgress,
    TuiAsciiArt,
    TuiStats,
    TuiFont,
    TuiTheme,
    SoundShortBreak,
    SoundLongBreak,
    SoundWork,
    HookPause,
    HookResume,
    HookPauseWork,
    HookResumeWork,
    HookResumeShortBreak,
    HookPauseShortBreak,
    HookResumeLongBreak,
    HookPauseLongBreak,
    HookStartShortBreak,
    HookStartLongBreak,
    HookStartWork,
}

/// Whether the page edits a line of text.
#[derive(Clone, Copy, Debug, PartialEq, Eq, Structural)]
pub enum InputMode {
    Normal,
    Editing,
}

/// An entry of the menu or of a sub menu.
#[derive(Clone, Copy, Debug, PartialEq, Eq, Structural)]
pub enum AnySettingItem {
    Main(SettingsItem),
    Sub(SettingsSubItems),
}

/// The entries of the sub menu under a menu entry.
pub open spec fn sub_items_of(item: SettingsItem) -> Seq<SettingsSubItems> {
    match item {
        SettingsItem::Tui => seq![
            SettingsSubItems::TuiProgress,
            SettingsSubItems::TuiAsciiArt,
            SettingsSubItems::TuiStats,
            SettingsSubItems::TuiFont,
            SettingsSubItems::TuiTheme,
        ],
        SettingsItem::Sounds => seq![
            SettingsSubItems::SoundWork,
            SettingsSubItems::SoundShortBreak,
            SettingsSubItems::SoundLongBreak,
        ],
        SettingsItem::Hooks => seq![
            SettingsSubItems::HookPause,
            SettingsSubItems::HookResume,
            SettingsSubItems::HookPauseWork,
            SettingsSubItems::HookResumeWork,
            SettingsSubItems::HookPauseLongBreak,
            SettingsSubItems::HookPauseShortBreak,
            SettingsSubItems::HookResumeLongBreak,
            SettingsSubItems::HookResumeShortBreak,
            SettingsSubItems::HookStartShortBreak,
            SettingsSubItems::HookStartLongBreak,
            SettingsSubItems::HookStartWork,
        ],
        _ => seq![],
    }
}

/// The entries of the sub menu under a menu entry.
pub fn get_sub_items(item: &SettingsItem) -> (v: Vec<SettingsSubItems>)
    ensures
        v@ == sub_items_of(*item),
{
    let v = match item {
        SettingsItem::Tui => vec![
            SettingsSubItems::TuiProgress,
            SettingsSubItems::TuiAsciiArt,
            SettingsSubItems::TuiStats,
            SettingsSubItems::TuiFont,
            SettingsSubItems::TuiTheme,
        ],
        SettingsItem::Sounds => vec![
            SettingsSubItems::SoundWork,
            SettingsSubItems::SoundShortBreak,
            SettingsSubItems::SoundLongBreak,
        ],
        SettingsItem::Hooks => vec![
            SettingsSubItems::HookPause,
            SettingsSubItems::HookResume,
            SettingsSubItems::HookPauseWork,
            SettingsSubItems::HookResumeWork,
            SettingsSubItems::HookPauseLongBreak,
            SettingsSubItems::HookPauseShortBreak,
            SettingsSubItems::HookResumeLongBreak,
            SettingsSubItems::HookResumeShortBreak,
            SettingsSubItems::HookStartShortBreak,
            SettingsSubItems::HookStartLongBreak,
            SettingsSubItems::HookStartWork,
        ],
        _ => vec![],
    };
    proof {
        assert(v@ =~= sub_items_of(*item));
    }
    v
}

/// The configuration key of a hook entry.
pub open spec fn hook_key_of(item: SettingsSubItems) -> Option<Seq<char>> {
    match item {
        SettingsSubItems::HookPause => Some("hook_pause"@),
        SettingsSubItems::HookResume => Some("hook_resume"@),
        SettingsSubItems::HookPauseWork => Some("hook_pause_work"@),
        SettingsSubItems::HookResumeWork => Some("hook_resume_work"@),
        SettingsSubItems::HookPauseLongBreak => Some("hook_pause_long_break"@),
        SettingsSubItems::HookPauseShortBreak => Some("hook_pause_short_break"@),
        SettingsSubItems::HookResumeLongBreak => Some("hook_resume_long_break"@),
        SettingsSubItems::HookResumeShortBreak => Some("hook_resume_short_break"@),
        SettingsSubItems::HookStartShortBreak => Some("hook_start_short_break"@),
        SettingsSubItems::HookStartLongBreak => Some("hook_start_long_break"@),
        SettingsSubItems::HookStartWork => Some("hook_start_work"@),
        _ => None,
    }
}

/// The configuration key of a hook entry, if the entry is a hook.
pub fn hook_config_key(item: &SettingsSubItems) -> (k: Option<&'static str>)
    ensures
        match k {
            Some(s) => hook_key_of(*item) == Some(s@),
            None => hook_key_of(*item) is None,
        },
{
    match item {
        SettingsSubItems::HookPause => Some("hook_pause"),
        SettingsSubItems::HookResume => Some("hook_resume"),
        SettingsSubItems::HookPauseWork => Some("hook_pause_work"),
        SettingsSubItems::HookResumeWork => Some("hook_resume_work"),
        SettingsSubItems::HookPauseLongBreak => Some("hook_pause_long_break"),
        SettingsSubItems::HookPauseShortBreak => Some("hook_pause_short_break"),
        SettingsSubItems::HookResumeLongBreak => Some("hook_resume_long_break"),
        SettingsSubItems::HookResumeShortBreak => Some("hook_resume_short_break"),
        SettingsSubItems::HookStartShortBreak => Some("hook_start_short_break"),
        SettingsSubItems::HookStartLongBreak => Some("hook_start_long_break"),
        SettingsSubItems::HookStartWork => Some("hook_start_work"),
        _ => None,
    }
}

/// "Enabled" or "Not enabled".
pub open spec fn enabled_text(val: bool) -> Seq<char> {
    if val {
        "Enabled"@
    } else {
        "Not enabled"@
    }
}

/// Says whether a setting is on.
pub fn enabled(val: bool) -> (s: String)
    ensures
        s@ == enabled_text(val),
{
    if val {
        String::from_str("Enabled")
    } else {
        String::from_str("Not enabled")
    }
}

/// The label of a menu entry.
pub open spec fn item_name(item: SettingsItem) -> Seq<char> {
    match item {
        SettingsItem::Notification => "Notification"@,
        SettingsItem::DailyGoal => "Daily Goal"@,
        SettingsItem::Preset => "Preset"@,
        SettingsItem::Hooks => "Hooks"@,
        SettingsItem::Sounds => "Sounds"@,
        SettingsItem::Tui => "TUI"@,
    }
}

/// The label of a menu entry.
pub fn name_for_settings_item(item: &SettingsItem) -> (s: String)
    ensures
        s@ == item_name(*item),
{
    String::from_str(
        match item {
            SettingsItem::Notification => "Notification",
            SettingsItem::DailyGoal => "Daily Goal",
            SettingsItem::Preset => "Preset",
            SettingsItem::Hooks => "Hooks",
            SettingsItem::Sounds => "Sounds",
            SettingsItem::Tui => "TUI",
        },
    )
}

/// The value a menu entry shows.
pub open spec fn item_value(item: SettingsItem, config: Config) -> Seq<char> {
    match item {
        SettingsItem::Notification => enabled_text(config.show_notifications),
        SettingsItem::Tui => ">"@,
        SettingsItem::DailyGoal => duration_text((config.daily_goal_minutes * 60) as nat),
        _ => "Not implemented"@,
    }
}

/// The value a menu entry shows.
pub fn value_for_settings_item(item: &SettingsItem, config: &Config) -> (s: String)
    requires
        *item == SettingsItem::DailyGoal ==> config.daily_goal_minutes * 60 <= u64::MAX,
    ensures
        s@ == item_value(*item, *config),
{
    match item {
        SettingsItem::Notification => enabled(config.show_notifications),
        SettingsItem::Tui => String::from_str(">"),
        SettingsItem::DailyGoal => render_duration(config.daily_goal_minutes * 60),
        _ => String::from_str("Not implemented"),
    }
}

/// The label of a sub menu entry.
pub open spec fn sub_item_name(item: SettingsSubItems) -> Seq<char> {
    match item {
        SettingsSubItems::TuiFont => "Font"@,
        SettingsSubItems::TuiStats => "TUI show Stats"@,
        SettingsSubItems::TuiProgress => "TUI show progress bar"@,
        SettingsSubItems::TuiAsciiArt => "TUI show ASCII Art"@,
        SettingsSubItems::TuiTheme => "TUI Theme"@,
        SettingsSubItems::SoundWork => "Sound Work"@,
        SettingsSubItems::SoundShortBreak => "Sound Short Break"@,
        SettingsSubItems::SoundLongBreak => "Sound Long Break"@,
        SettingsSubItems::HookPause => "Hook Pause"@,
        SettingsSubItems::HookResume => "Hook Resume"@,
        SettingsSubItems::HookPauseWork => "Hook Pause Work"@,
        SettingsSubItems::HookResumeWork => "Hook Resume Work"@,
        SettingsSubItems::HookPauseLongBreak => "Hook Pause Long Break"@,
        SettingsSubItems::HookPauseShortBreak => "Hook Pause Short Break"@,
        SettingsSubItems::HookResumeLongBreak => "Hook Resume Long Break"@,
        SettingsSubItems::HookResumeShortBreak => "Hook Resume Short Break"@,
        SettingsSubItems::HookStartShortBreak => "Hook Start Short Break"@,
        SettingsSubItems::HookStartLongBreak => "Hook Start Long Break"@,
        SettingsSubItems::HookStartWork => "Hook Start Work"@,
    }
}

/// The label of a sub menu entry.
pub fn name_for_settings_sub_item(item: &SettingsSubItems) -> (s: String)
    ensures
        s@ == sub_item_name(*item),
{
    String::from_str(
        match item {
            SettingsSubItems::TuiFont => "Font",
            SettingsSubItems::TuiStats => "TUI show Stats",
            SettingsSubItems::TuiProgress => "TUI show progress bar",
            SettingsSubItems::TuiAsciiArt => "TUI show ASCII Art",
            SettingsSubItems::TuiTheme => "TUI Theme",
            SettingsSubItems::SoundWork => "Sound Work",
            SettingsSubItems::SoundShortBreak => "Sound Short Break",
            SettingsSubItems::SoundLongBreak => "Sound Long Break",
            SettingsSubItems::HookPause => "Hook Pause",
            SettingsSubItems::HookResume => "Hook Resume",
            SettingsSubItems::HookPauseWork => "Hook Pause Work",
            SettingsSubItems::HookResumeWork => "Hook Resume Work",
            SettingsSubItems::HookPauseLongBreak => "Hook Pause Long Break",
            SettingsSubItems::HookPauseShortBreak => "Hook Pause Short Break",
            SettingsSubItems::HookResumeLongBreak => "Hook Resume Long Break",
            SettingsSubItems::HookResumeShortBreak => "Hook Resume Short Break",
            SettingsSubItems::HookStartShortBreak => "Hook Start Short Break",
            SettingsSubItems::HookStartLongBreak => "Hook Start Long Break",
            SettingsSubItems::HookStartWork => "Hook Start Work",
        },
    )
}

/// The value a sub menu entry shows.
pub open spec fn sub_item_value(item: SettingsSubItems, config: Config) -> Seq<char> {
    match item {
        SettingsSubItems::TuiStats => enabled_text(config.tui_show_stats),
        SettingsSubItems::TuiProgress => enabled_text(config.tui_show_progress),
        SettingsSubItems::TuiAsciiArt => enabled_text(config.tui_show_ascii_art),
        SettingsSubItems::TuiFont => font_name(config.font),
        SettingsSubItems::HookPause => config.hook_pause@,
        SettingsSubItems::HookResume => config.hook_resume@,
        SettingsSubItems::HookPauseWork => config.hook_pause_work@,
        SettingsSubItems::HookResumeWork => config.hook_resume_work@,
        SettingsSubItems::HookPauseLongBreak => config.hook_pause_long_break@,
        SettingsSubItems::HookResumeLongBreak => config.hook_resume_long_break@,
        SettingsSubItems::HookPauseShortBreak => config.hook_pause_short_break@,
        SettingsSubItems::HookResumeShortBreak => config.hook_resume_short_break@,
        SettingsSubItems::HookStartShortBreak => config.hook_start_short_break@,
        SettingsSubItems::HookStartLongBreak => config.hook_start_long_break@,
        SettingsSubItems::HookStartWork => config.hook_start_work@,
        _ => "Not Implemented"@,
    }
}

/// The value a sub menu entry shows.
pub fn value_for_settings_sub_item(item: &SettingsSubItems, config: &Config) -> (s: String)
    ensures
        s@ == sub_item_value(*item, *config),
{
    match item {
        SettingsSubItems::TuiStats => enabled(config.tui_show_stats),
        SettingsSubItems::TuiProgress => enabled(config.tui_show_progress),
        SettingsSubItems::TuiAsciiArt => enabled(config.tui_show_ascii_art),
        SettingsSubItems::TuiFont => String::from_str(config.font.name()),
        SettingsSubItems::HookPause => config.hook_pause.clone(),
        SettingsSubItems::HookResume => config.hook_resume.clone(),
        SettingsSubItems::HookPauseWork => config.hook_pause_work.clone(),
        SettingsSubItems::HookResumeWork => config.hook_resume_work.clone(),
        SettingsSubItems::HookPauseLongBreak => config.hook_pause_long_break.clone(),
        SettingsSubItems::HookResumeLongBreak => config.hook_resume_long_break.clone(),
        SettingsSubItems::HookPauseShortBreak => config.hook_pause_short_break.clone(),
        SettingsSubItems::HookResumeShortBreak => config.hook_resume_short_break.clone(),
        SettingsSubItems::HookStartShortBreak => config.hook_start_short_break.clone(),
        SettingsSubItems::HookStartLongBreak => config.hook_start_long_break.clone(),
        SettingsSubItems::HookStartWork => config.hook_start_work.clone(),
        _ => String::from_str("Not Implemented"),
    }
}

/// The daily goal after raising it by five minutes, as written to the
/// configuration.
pub fn increase_goal(goal: u64) -> (g: i64)
    requires
        goal + 5 <= u64::MAX,
    ensures
        g == (goal + 5) as i64,
{
    (goal + 5) as i64
}

/// The daily goal after lowering it by five minutes (not below zero), as
/// written to the configuration.
pub fn decrease_goal(goal: u64) -> (g: i64)
    ensures
        g == (if goal >= 5 {
            (goal - 5) as u64
        } else {
            0u64
        }) as i64,
{
    goal.saturating_sub(5) as i64
}

/// A configuration change that a choice on the settings page asks for.
pub enum SettingsAction {
    /// None.
    Nothing,
    /// Flip the boolean setting under this key.
    ToggleConfig(&'static str),
    /// Use this font.
    SetFont(Fonts),
    /// Store this daily goal, in minutes.
    SetDailyGoal(i64),
    /// Start editing a line, beginning with this text.
    StartEditing(String),
}

/// A settings change, with its texts as character sequences.
pub enum ActionView {
    Nothing,
    ToggleConfig(Seq<char>),
    SetFont(Fonts),
    SetDailyGoal(i64),
    StartEditing(Seq<char>),
}

impl View for SettingsAction {
    type V = ActionView;

    open spec fn view(&self) -> ActionView {
        match self {
            SettingsAction::Nothing => ActionView::Nothing,
            SettingsAction::ToggleConfig(k) => ActionView::ToggleConfig(k@),
            SettingsAction::SetFont(f) => ActionView::SetFont(*f),
            SettingsAction::SetDailyGoal(g) => ActionView::SetDailyGoal(*g),
            SettingsAction::StartEditing(s) => ActionView::StartEditing(s@),
        }
    }
}

/// What a key does while a line is edited.
pub enum EditOutcome {
    /// Store the edited line under this configuration key; editing ends.
    Save(&'static str),
    /// Editing ends without storing anything.
    Done,
    /// Hand the key to the line editor.
    Forward,
}

/// The settings page.
pub struct SettingsPage {
    pub selected_setting_index: usize,
    pub settings_items: Vec<SettingsItem>,
    pub in_sub_menu: bool,
    pub sub_menu_index: usize,
    pub input_mode: InputMode,
}

impl Default for SettingsPage {
    fn default() -> (p: SettingsPage)
        ensures
            p.wf(),
            p.selected_setting_index == 0,
            !p.in_sub_menu,
            p.sub_menu_index == 0,
            p.input_mode == InputMode::Normal,
            p.settings_items@ == seq![
                SettingsItem::Preset,
                SettingsItem::Notification,
                SettingsItem::Tui,
                SettingsItem::DailyGoal,
                SettingsItem::Hooks,
                SettingsItem::Sounds,
            ],
    {
        let items = vec![
            SettingsItem::Preset,
            SettingsItem::Notification,
            SettingsItem::Tui,
            SettingsItem::DailyGoal,
            SettingsItem::Hooks,
            SettingsItem::Sounds,
        ];
        proof {
            assert(items@ =~= seq![
                SettingsItem::Preset,
                SettingsItem::Notification,
                SettingsItem::Tui,
                SettingsItem::DailyGoal,
                SettingsItem::Hooks,
                SettingsItem::Sounds,
            ]);
        }
        SettingsPage {
            selected_setting_index: 0,
            sub_menu_index: 0,
            in_sub_menu: false,
            input_mode: InputMode::Normal,
            settings_items: items,
        }
    }
}

impl SettingsPage {
    /// The cursors lie within their menus: the menu is not empty, and in a
    /// sub menu the cursor lies within the sub menu of the selected entry.
    pub open spec fn wf(self) -> bool {
        &&& self.settings_items@.len() > 0
        &&& self.selected_setting_index < self.settings_items@.len()
        &&& self.in_sub_menu ==> self.sub_menu_index < sub_items_of(
            self.settings_items@[self.selected_setting_index as int],
        ).len()
    }

    /// The selected menu entry.
    pub open spec fn selected_main(self) -> SettingsItem {
        self.settings_items@[self.selected_setting_index as int]
    }

    /// The selected sub menu entry.
    pub open spec fn selected_sub(self) -> SettingsSubItems {
        sub_items_of(self.selected_main())[self.sub_menu_index as int]
    }

    /// The entries on screen: those of the sub menu when in one, else those
    /// of the menu.
    pub open spec fn items_shown(self) -> Seq<AnySettingItem> {
        if self.in_sub_menu {
            sub_items_of(self.selected_main()).map_values(|i: SettingsSubItems| AnySettingItem::Sub(i))
        } else {
            self.settings_items@.map_values(|i: SettingsItem| AnySettingItem::Main(i))
        }
    }

    /// The selected menu entry.
    pub fn get_selected_item_main(&self) -> (item: SettingsItem)
        requires
            self.wf(),
        ensures
            item == self.selected_main(),
    {
        self.settings_items[self.selected_setting_index]
    }

    /// The selected sub menu entry.
    pub fn get_selected_item_sub(&self) -> (item: SettingsSubItems)
        requires
            self.wf(),
            self.in_sub_menu,
        ensures
            item == self.selected_sub(),
    {
        let main = self.get_selected_item_main();
        let items = get_sub_items(&main);
        items[self.sub_menu_index]
    }

    /// The entries to show.
    pub fn get_items_to_render(&self) -> (v: Vec<AnySettingItem>)
        requires
            self.wf(),
        ensures
            v@ == self.items_shown(),
    {
        let mut v: Vec<AnySettingItem> = Vec::new();
        if self.in_sub_menu {
            let crr = self.get_selected_item_main();
            let items = get_sub_items(&crr);
            let mut i: usize = 0;
            while i < items.len()
                invariant
                    i <= items@.len(),
                    items@ == sub_items_of(crr),
                    v@ == items@.take(i as int).map_values(|x: SettingsSubItems| AnySettingItem::Sub(x)),
                decreases items@.len() - i,
            {
                v.push(AnySettingItem::Sub(items[i]));
                proof {
                    assert(items@.take(i as int + 1).map_values(|x: SettingsSubItems| AnySettingItem::Sub(x))
                        =~= items@.take(i as int).map_values(|x: SettingsSubItems| AnySettingItem::Sub(x)).push(
                        AnySettingItem::Sub(items@[i as int]),
                    ));
                }
                i = i + 1;
            }
            proof {
                assert(items@.take(items@.len() as int) =~= items@);
            }
        } else {
            let mut i: usize = 0;
            while i < self.settings_items.len()
                invariant
                    i <= self.settings_items@.len(),
                    v@ == self.settings_items@.take(i as int).map_values(|x: SettingsItem| AnySettingItem::Main(x)),
                decreases self.settings_items@.len() - i,
            {
                v.push(AnySettingItem::Main(self.settings_items[i]));
                proof {
                    assert(self.settings_items@.take(i as int + 1).map_values(|x: SettingsItem| AnySettingItem::Main(x))
                        =~= self.settings_items@.take(i as int).map_values(|x: SettingsItem| AnySettingItem::Main(x)).push(
                        AnySettingItem::Main(self.settings_items@[i as int]),
                    ));
                }
                i = i + 1;
            }
            proof {
                assert(self.settings_items@.take(self.settings_items@.len() as int) =~= self.settings_items@);
            }
        }
        v
    }

    /// Whether a line is being edited.
    pub fn is_editing(&self) -> (b: bool)
        ensures
            b == (self.input_mode == InputMode::Editing),
    {
        self.input_mode == InputMode::Editing
    }

    /// Starts editing a line; on a hook entry of a sub menu, returns the
    /// hook's command to begin with.
    pub fn start_editing(&mut self, config: &Config) -> (r: Option<String>)
        requires
            old(self).wf(),
        ensures
            final(self).wf(),
            *final(self) == (SettingsPage { input_mode: InputMode::Editing, ..*old(self) }),
            (old(self).in_sub_menu && hook_key_of(old(self).selected_sub()) is Some) ==> (r matches Some(
                s,
            ) && s@ == sub_item_value(old(self).selected_sub(), *config)),
            !(old(self).in_sub_menu && hook_key_of(old(self).selected_sub()) is Some) ==> r is None,
    {
        let mut r = None;
        if self.in_sub_menu {
            let item = self.get_selected_item_sub();
            if hook_config_key(&item).is_some() {
                r = Some(value_for_settings_sub_item(&item, config));
            }
        }
        self.input_mode = InputMode::Editing;
        r
    }

    /// Stops editing.
    pub fn stop_editing(&mut self)
        ensures
            *final(self) == (SettingsPage { input_mode: InputMode::Normal, ..*old(self) }),
    {
        self.input_mode = InputMode::Normal
    }

    /// Leaves the sub menu.
    pub fn exit_sub_menu(&mut self)
        ensures
            *final(self) == (SettingsPage { in_sub_menu: false, ..*old(self) }),
    {
        self.in_sub_menu = false
    }

    /// What a key does while a line is edited: Enter stores the line under
    /// the hook's key and Esc drops it, both ending the editing; any other
    /// key goes to the line editor.
    pub fn handle_editing_key(&mut self, key: Key) -> (r: EditOutcome)
        requires
            old(self).wf(),
        ensures
            final(self).wf(),
            key == Key::Enter ==> *final(self) == (SettingsPage {
                input_mode: InputMode::Normal,
                ..*old(self)
            }) && (if old(self).in_sub_menu && hook_key_of(old(self).selected_sub()) is Some {
                r matches EditOutcome::Save(k) && Some(k@) == hook_key_of(old(self).selected_sub())
            } else {
                r is Done
            }),
            key == Key::Esc ==> *final(self) == (SettingsPage {
                input_mode: InputMode::Normal,
                ..*old(self)
            }) && r is Done,
            key != Key::Enter && key != Key::Esc ==> *final(self) == *old(self) && r is Forward,
    {
        match key {
            Key::Enter => {
                let mut r = EditOutcome::Done;
                if self.in_sub_menu {
                    let item = self.get_selected_item_sub();
                    if let Some(k) = hook_config_key(&item) {
                        r = EditOutcome::Save(k);
                    }
                }
                self.stop_editing();
                r
            },
            Key::Esc => {
                self.stop_editing();
                EditOutcome::Done
            },
            _ => EditOutcome::Forward,
        }
    }

    /// Moves the cursor up, unless at the top.
    pub fn up(&mut self)
        requires
            old(self).wf(),
        ensures
            final(self).wf(),
            old(self).in_sub_menu ==> *final(self) == (SettingsPage {
                sub_menu_index: if old(self).sub_menu_index > 0 {
                    (old(self).sub_menu_index - 1) as usize
                } else {
                    0
                },
                ..*old(self)
            }),
            !old(self).in_sub_menu ==> *final(self) == (SettingsPage {
                selected_setting_index: if old(self).selected_setting_index > 0 {
                    (old(self).selected_setting_index - 1) as usize
                } else {
                    0
                },
                ..*old(self)
            }),
    {
        if self.in_sub_menu {
            if self.sub_menu_index > 0 {
                self.sub_menu_index -= 1;
            }
        } else {
            if self.selected_setting_index > 0 {
                self.selected_setting_index -= 1;
            }
        }
    }

    /// Moves the cursor down, unless at the bottom.
    pub fn down(&mut self)
        requires
            old(self).wf(),
        ensures
            final(self).wf(),
            old(self).in_sub_menu ==> *final(self) == (SettingsPage {
                sub_menu_index: if old(self).sub_menu_index + 1 < old(self).items_shown().len() {
                    (old(self).sub_menu_index + 1) as usize
                } else {
                    old(self).sub_menu_index
                },
                ..*old(self)
            }),
            !old(self).in_sub_menu ==> *final(self) == (SettingsPage {
                selected_setting_index: if old(self).selected_setting_index + 1 < old(
                    self,
                ).items_shown().len() {
                    (old(self).selected_setting_index + 1) as usize
                } else {
                    old(self).selected_setting_index
                },
                ..*old(self)
            }),
    {
        let count = self.get_items_to_render().len() - 1;
        if self.in_sub_menu {
            if self.sub_menu_index < count {
                self.sub_menu_index += 1;
            }
        } else {
            if self.selected_setting_index < count {
                self.selected_setting_index += 1;
            }
        }
    }

    /// What "right" (or Enter) does: on a sub menu entry, flips a display
    /// setting, moves to the next font, or starts editing a hook; on a menu
    /// entry with a sub menu, opens it; on the notification entry, flips
    /// notifications; on the daily goal, raises it by five minutes.
    pub fn handle_right(&mut self, config: &Config) -> (r: SettingsAction)
        requires
            old(self).wf(),
            !old(self).in_sub_menu && old(self).selected_main() == SettingsItem::DailyGoal
                ==> config.daily_goal_minutes + 5 <= u64::MAX,
        ensures
            final(self).wf(),
            r@ == right_action(*old(self), *config),
            *final(self) == right_page(*old(self)),
    {
        if self.in_sub_menu {
            let crr_item = self.get_selected_item_sub();
            return match crr_item {
                SettingsSubItems::TuiProgress => SettingsAction::ToggleConfig("tui_show_progress"),
                SettingsSubItems::TuiAsciiArt => SettingsAction::ToggleConfig("tui_show_ascii_art"),
                SettingsSubItems::TuiStats => SettingsAction::ToggleConfig("tui_show_stats"),
                SettingsSubItems::TuiFont => SettingsAction::SetFont(config.font.next_font()),
                _ => {
                    if hook_config_key(&crr_item).is_some() {
                        match self.start_editing(config) {
                            Some(s) => SettingsAction::StartEditing(s),
                            None => SettingsAction::Nothing,
                        }
                    } else {
                        SettingsAction::Nothing
                    }
                },
            };
        }
        let crr_item = self.get_selected_item_main();
        let sub_items = get_sub_items(&crr_item);
        if sub_items.len() > 0 {
            self.in_sub_menu = true;
            self.sub_menu_index = 0;
            return SettingsAction::Nothing;
        }
        match crr_item {
            SettingsItem::Notification => SettingsAction::ToggleConfig("show_notifications"),
            SettingsItem::DailyGoal => SettingsAction::SetDailyGoal(
                increase_goal(config.daily_goal_minutes),
            ),
            _ => SettingsAction::Nothing,
        }
    }

    /// What "left" does: leaves a sub menu; on the notification entry,
    /// flips notifications; on the daily goal, lowers it by five minutes.
    pub fn handle_left(&mut self, config: &Config) -> (r: SettingsAction)
        requires
            old(self).wf(),
        ensures
            final(self).wf(),
            old(self).in_sub_menu ==> *final(self) == (SettingsPage {
                in_sub_menu: false,
                ..*old(self)
            }) && r@ == ActionView::Nothing,
            !old(self).in_sub_menu ==> *final(self) == *old(self) && r@ == match old(
                self,
            ).selected_main() {
                SettingsItem::Notification => ActionView::ToggleConfig("show_notifications"@),
                SettingsItem::DailyGoal => ActionView::SetDailyGoal(
                    (if config.daily_goal_minutes >= 5 {
                        (config.daily_goal_minutes - 5) as u64
                    } else {
                        0u64
                    }) as i64,
                ),
                _ => ActionView::Nothing,
            },
    {
        if self.in_sub_menu {
            self.in_sub_menu = false;
            SettingsAction::Nothing
        } else {
            let crr_item = self.get_selected_item_main();
            match crr_item {
                SettingsItem::Notification => SettingsAction::ToggleConfig("show_notifications"),
                SettingsItem::DailyGoal => SettingsAction::SetDailyGoal(
                    decrease_goal(config.daily_goal_minutes),
                ),
                _ => SettingsAction::Nothing,
            }
        }
    }
}

/// The change "right" asks for.
pub open spec fn right_action(p: SettingsPage, config: Config) -> ActionView {
    if p.in_sub_menu {
        match p.selected_sub() {
            SettingsSubItems::TuiProgress => ActionView::ToggleConfig("tui_show_progress"@),
            SettingsSubItems::TuiAsciiArt => ActionView::ToggleConfig("tui_show_ascii_art"@),
            SettingsSubItems::TuiStats => ActionView::ToggleConfig("tui_show_stats"@),
            SettingsSubItems::TuiFont => ActionView::SetFont(next_font_of(config.font)),
            s => if hook_key_of(s) is Some {
                ActionView::StartEditing(sub_item_value(s, config))
            } else {
                ActionView::Nothing
            },
        }
    } else if sub_items_of(p.selected_main()).len() > 0 {
        ActionView::Nothing
    } else {
        match p.selected_main() {
            SettingsItem::Notification => ActionView::ToggleConfig("show_notifications"@),
            SettingsItem::DailyGoal => ActionView::SetDailyGoal((config.daily_goal_minutes + 5) as i64),
            _ => ActionView::Nothing,
        }
    }
}

/// The page after "right": a hook entry starts editing, a menu entry with a
/// sub menu opens it at its first entry, anything else leaves the page as it
/// was.
pub open spec fn right_page(p: SettingsPage) -> SettingsPage {
    if p.in_sub_menu {
        if hook_key_of(p.selected_sub()) is Some {
            SettingsPage { input_mode: InputMode::Editing, ..p }
        } else {
            p
        }
    } else if sub_items_of(p.selected_main()).len() > 0 {
        SettingsPage { in_sub_menu: true, sub_menu_index: 0, ..p }
    } else {
        p
    }
}

/// The font that follows `f`.
pub open spec fn next_font_of(f: Fonts) -> Fonts {
    match f {
        Fonts::AnsiRegular => Fonts::AnsiShadow,
        Fonts::AnsiShadow => Fonts::DosRebel,
        Fonts::DosRebel => Fonts::Future,
        Fonts::Future => Fonts::Mono12,
        Fonts::Mono12 => Fonts::Mono9,
        Fonts::Mono9 => Fonts::SmBlock,
        Fonts::SmBlock => Fonts::Terminus,
        Fonts::Terminus => Fonts::TubesRegular,
        Fonts::TubesRegular => Fonts::AnsiRegular,
    }
}

} // verus!
