//! The decisions of the terminal interface: its pages, the help popup, and
//! what each key does.

use vstd::prelude::*;
use crate::cycle::{cycle_item, find_index};
use crate::daemon::Message;

verus! {

/// The pages of the interface.
#[derive(Clone, Copy, Debug)]
pub enum Pages {
    Timer,
    Stats,
    History,
    Settings,
}

/// The position of a page in the order in which `[` and `]` step through
/// them.
pub open spec fn page_index(p: Pages) -> int {
    match p {
        Pages::Timer => 0,
        Pages::Stats => 1,
        Pages::History => 2,
        Pages::Settings => 3,
    }
}

impl Pages {
    /// The position of the page among all pages.
    pub fn index(&self) -> (i: u8)
        ensures
            i == page_index(*self),
    {
        match self {
            Pages::Timer => 0,
            Pages::Stats => 1,
            Pages::History => 2,
            Pages::Settings => 3,
        }
    }
}

impl PartialEq for Pages {
    fn eq(&self, other: &Self) -> (r: bool) {
        self.index() == other.index()
    }
}

impl vstd::std_specs::cmp::PartialEqSpecImpl for Pages {
    open spec fn obeys_eq_spec() -> bool {
        true
    }

    open spec fn eq_spec(&self, other: &Pages) -> bool {
        page_index(*self) == page_index(*other)
    }
}

impl Default for Pages {
    fn default() -> (p: Pages)
        ensures
            p == Pages::Timer,
    {
        Pages::Timer
    }
}

/// All pages, in order.
pub fn all_pages() -> (v: Vec<Pages>)
    ensures
        v@ == seq![Pages::Timer, Pages::Stats, Pages::History, Pages::Settings],
{
    let mut v = Vec::new();
    v.push(Pages::Timer);
    v.push(Pages::Stats);
    v.push(Pages::History);
    v.push(Pages::Settings);
    proof {
        assert(v@ =~= seq![Pages::Timer, Pages::Stats, Pages::History, Pages::Settings]);
    }
    v
}

/// The page at a position among all pages.
pub open spec fn page_at(i: int) -> Pages {
    if i == 0 {
        Pages::Timer
    } else if i == 1 {
        Pages::Stats
    } else if i == 2 {
        Pages::History
    } else {
        Pages::Settings
    }
}

/// The page `offset` steps away from `current`, wrapping around.
pub fn select_page(current: Pages, offset: isize) -> (p: Pages)
    requires
        isize::MIN + 4 <= offset <= isize::MAX - 4,
    ensures
        page_index(p) == (page_index(current) + offset) % 4,
{
    let pages = all_pages();
    let ghost s = pages@;
    proof {
        assert(s[0] == Pages::Timer);
        assert(s[1] == Pages::Stats);
        assert(s[2] == Pages::History);
        assert(s[3] == Pages::Settings);
        assert(find_index(s, current) == Some(page_index(current))) by {
            reveal_with_fuel(find_index, 5);
            assert(s.drop_first() =~= seq![Pages::Stats, Pages::History, Pages::Settings]);
            assert(s.drop_first().drop_first() =~= seq![Pages::History, Pages::Settings]);
            assert(s.drop_first().drop_first().drop_first() =~= seq![Pages::Settings]);
        }
    }
    let p = cycle_item(current, pages.as_slice(), offset);
    proof {
        let k = (page_index(current) + offset) % 4;
        assert(0 <= k < 4);
        assert(p == s[k]);
    }
    p
}

/// Stepping through the pages goes round: a step forward and a step back
/// return to the page, and four steps forward do too.
pub proof fn lemma_page_round(current: Pages, next: Pages, back: Pages)
    requires
        page_index(next) == (page_index(current) + 1) % 4,
        page_index(back) == (page_index(next) + -1) % 4,
    ensures
        back == current,
        (page_index(current) + 4) % 4 == page_index(current),
{
}

/// The title of a page.
pub open spec fn page_title_text(p: Pages) -> Seq<char> {
    match p {
        Pages::Timer => "Timer"@,
        Pages::Stats => "Stats"@,
        Pages::History => "History"@,
        Pages::Settings => "Settings"@,
    }
}

/// The title of a page, as the header shows it.
pub fn page_title(p: Pages) -> (s: &'static str)
    ensures
        s@ == page_title_text(p),
{
    match p {
        Pages::Timer => "Timer",
        Pages::Stats => "Stats",
        Pages::History => "History",
        Pages::Settings => "Settings",
    }
}

/// The help popup.
pub struct Popup {
    pub showen: bool,
}

/// The texts of a list of key bindings.
pub open spec fn keymap_texts(v: Seq<(String, String)>) -> Seq<(Seq<char>, Seq<char>)> {
    v.map_values(|k: (String, String)| (k.0@, k.1@))
}

/// The key bindings the help popup lists on a page; `show_stats` tells
/// whether the timer page shows the presets.
pub open spec fn keymaps_for(page: Pages, show_stats: bool) -> Seq<(Seq<char>, Seq<char>)> {
    let common = seq![
        ("Space"@, "Toggle Timer"@),
        ("n"@, "Next Session"@),
        ("r"@, "Reset Session"@),
        ("q"@, "Quit"@),
        ("]"@, "Previous page"@),
        ("["@, "Next page"@),
        ("?"@, "Toggle help menu"@),
    ];
    match page {
        Pages::Timer => (if show_stats {
            common.push(("Enter"@, "Select the preset"@))
        } else {
            common
        }).push(("k/↑"@, "Prevoius preset"@)).push(("j/↓"@, "Next preset"@)),
        Pages::History => common.push(("k/↑"@, "Scroll up"@)).push(("j/↓"@, "Scroll down"@)),
        Pages::Settings => common.push(("k/↑"@, "Down"@)).push(("j/↓"@, "Up"@)).push(
            ("l/→"@, "Open Sub menu or scroll through values"@),
        ).push(("h/←"@, "Back"@)),
        Pages::Stats => common,
    }
}

fn push_keymap(v: &mut Vec<(String, String)>, key: &str, desc: &str)
    ensures
        keymap_texts(final(v)@) == keymap_texts(old(v)@).push((key@, desc@)),
{
    let ghost before = v@;
    v.push((String::from_str(key), String::from_str(desc)));
    proof {
        assert(keymap_texts(v@) =~= keymap_texts(before).push((key@, desc@)));
    }
}

impl Default for Popup {
    fn default() -> (p: Popup)
        ensures
            !p.showen,
    {
        Popup { showen: false }
    }
}

impl Popup {
    /// Shows the popup when hidden and hides it when shown.
    pub fn toggle(&mut self)
        ensures
            final(self).showen == !old(self).showen,
    {
        self.showen = !self.showen
    }

    /// Hides the popup.
    pub fn hide_popup(&mut self)
        ensures
            !final(self).showen,
    {
        self.showen = false
    }

    /// The key bindings to list on a page.
    pub fn get_keymaps(&self, current_page: Pages, show_stats: bool) -> (v: Vec<(String, String)>)
        ensures
            keymap_texts(v@) == keymaps_for(current_page, show_stats),
    {
        let mut keymaps: Vec<(String, String)> = Vec::new();
        push_keymap(&mut keymaps, "Space", "Toggle Timer");
        push_keymap(&mut keymaps, "n", "Next Session");
        push_keymap(&mut keymaps, "r", "Reset Session");
        push_keymap(&mut keymaps, "q", "Quit");
        push_keymap(&mut keymaps, "]", "Previous page");
        push_keymap(&mut keymaps, "[", "Next page");
        push_keymap(&mut keymaps, "?", "Toggle help menu");
        match current_page {
            Pages::Timer => {
                if show_stats {
                    push_keymap(&mut keymaps, "Enter", "Select the preset");
                }
                push_keymap(&mut keymaps, "k/↑", "Prevoius preset");
                push_keymap(&mut keymaps, "j/↓", "Next preset");
            },
            Pages::History => {
                push_keymap(&mut keymaps, "k/↑", "Scroll up");
                push_keymap(&mut keymaps, "j/↓", "Scroll down");
            },
            Pages::Settings => {
                push_keymap(&mut keymaps, "k/↑", "Down");
                push_keymap(&mut keymaps, "j/↓", "Up");
                push_keymap(&mut keymaps, "l/→", "Open Sub menu or scroll through values");
                push_keymap(&mut keymaps, "h/←", "Back");
            },
            Pages::Stats => {},
        }
        proof {
            assert(keymap_texts(keymaps@) =~= keymaps_for(current_page, show_stats));
        }
        keymaps
    }
}

/// A key press, as far as the interface reads it.
#[derive(Clone, Copy, Debug, PartialEq, Eq, Structural)]
pub enum Key {
    Char(char),
    Esc,
    Enter,
    Up,
    Down,
    Left,
    Right,
    Other,
}

/// What a key press asks the interface to do.
#[derive(Clone, Copy, Debug, PartialEq, Eq, Structural)]
pub enum KeyAction {
    /// Nothing.
    Nothing,
    /// Hand the key to the settings page's line editor.
    EditSetting,
    /// Hide the help popup.
    HidePopup,
    /// Show the help popup when hidden, hide it when shown.
    TogglePopup,
    /// Leave the interface.
    Quit,
    /// Send a command to the daemon.
    Send(Message),
    /// Go to the page this many steps away.
    SelectPage(isize),
    /// Leave the settings page's sub menu.
    ExitSubMenu,
    /// Move the selection of the current page down.
    Down,
    /// Move the selection of the current page up.
    Up,
    /// Select the preset under the cursor of the timer page.
    SelectPreset,
    /// Open the setting under the cursor, or change its value onwards.
    SettingsRight,
    /// Go back, or change the setting's value backwards.
    SettingsLeft,
}

/// What a key press does on a page; `editing` tells whether the settings
/// page edits a line, `popup_shown` whether the help popup shows, and
/// `ctrl` whether Control was held.
pub open spec fn key_action_of(
    page: Pages,
    editing: bool,
    popup_shown: bool,
    key: Key,
    ctrl: bool,
) -> KeyAction {
    if page == Pages::Settings && editing {
        KeyAction::EditSetting
    } else {
        match key {
            Key::Char('q') => if popup_shown {
                KeyAction::HidePopup
            } else {
                KeyAction::Quit
            },
            Key::Char(' ') => KeyAction::Send(Message::ToggleSession),
            Key::Char('n') => KeyAction::Send(Message::NextSession),
            Key::Char('r') => KeyAction::Send(Message::ResetSession),
            Key::Char('[') => KeyAction::SelectPage(1isize),
            Key::Char(']') => KeyAction::SelectPage(-1isize),
            Key::Char('?') => KeyAction::TogglePopup,
            Key::Esc => if page == Pages::Settings {
                KeyAction::ExitSubMenu
            } else {
                KeyAction::HidePopup
            },
            Key::Char('j') | Key::Down => if page == Pages::Stats {
                KeyAction::Nothing
            } else {
                KeyAction::Down
            },
            Key::Char('k') | Key::Up => if page == Pages::Stats {
                KeyAction::Nothing
            } else {
                KeyAction::Up
            },
            Key::Enter => match page {
                Pages::Timer => KeyAction::SelectPreset,
                Pages::Settings => KeyAction::SettingsRight,
                _ => KeyAction::Nothing,
            },
            Key::Char('l') | Key::Right => if page == Pages::Settings {
                KeyAction::SettingsRight
            } else {
                KeyAction::Nothing
            },
            Key::Char('h') | Key::Left => if page == Pages::Settings {
                KeyAction::SettingsLeft
            } else {
                KeyAction::Nothing
            },
            Key::Char('c') => if ctrl {
                KeyAction::Quit
            } else {
                KeyAction::Nothing
            },
            _ => KeyAction::Nothing,
        }
    }
}

/// Decides what a key press does.
pub fn handle_key_event(page: Pages, editing: bool, popup_shown: bool, key: Key, ctrl: bool) -> (a:
    KeyAction)
    ensures
        a == key_action_of(page, editing, popup_shown, key, ctrl),
{
    let settings = page.index() == 3;
    if settings && editing {
        return KeyAction::EditSetting;
    }
    match key {
        Key::Char('q') => if popup_shown {
            KeyAction::HidePopup
        } else {
            KeyAction::Quit
        },
        Key::Char(' ') => KeyAction::Send(Message::ToggleSession),
        Key::Char('n') => KeyAction::Send(Message::NextSession),
        Key::Char('r') => KeyAction::Send(Message::ResetSession),
        Key::Char('[') => KeyAction::SelectPage(1),
        Key::Char(']') => KeyAction::SelectPage(-1),
        Key::Char('?') => KeyAction::TogglePopup,
        Key::Esc => if settings {
            KeyAction::ExitSubMenu
        } else {
            KeyAction::HidePopup
        },
        Key::Char('j') | Key::Down => if page.index() == 1 {
            KeyAction::Nothing
        } else {
            KeyAction::Down
        },
        Key::Char('k') | Key::Up => if page.index() == 1 {
            KeyAction::Nothing
        } else {
            KeyAction::Up
        },
        Key::Enter => match page {
            Pages::Timer => KeyAction::SelectPreset,
            Pages::Settings => KeyAction::SettingsRight,
            _ => KeyAction::Nothing,
        },
        Key::Char('l') | Key::Right => if settings {
            KeyAction::SettingsRight
        } else {
            KeyAction::Nothing
        },
        Key::Char('h') | Key::Left => if settings {
            KeyAction::SettingsLeft
        } else {
            KeyAction::Nothing
        },
        Key::Char('c') => if ctrl {
            KeyAction::Quit
        } else {
            KeyAction::Nothing
        },
        _ => KeyAction::Nothing,
    }
}

/// Outside the line editor of the settings page, the three timer keys send
/// three different commands on every page, whether or not the help shows
/// and whatever the Control key: space toggles, `n` skips to the next
/// session and `r` restarts the current one. `[` and `]` step to the next
/// and the previous page, `?` shows or hides the help, and `q` closes the
/// help when it shows and quits otherwise.
pub proof fn lemma_timer_keys(page: Pages, editing: bool, popup_shown: bool, ctrl: bool)
    requires
        !(page == Pages::Settings && editing),
    ensures
        key_action_of(page, editing, popup_shown, Key::Char(' '), ctrl) == KeyAction::Send(
            Message::ToggleSession,
        ),
        key_action_of(page, editing, popup_shown, Key::Char('n'), ctrl) == KeyAction::Send(
            Message::NextSession,
        ),
        key_action_of(page, editing, popup_shown, Key::Char('r'), ctrl) == KeyAction::Send(
            Message::ResetSession,
        ),
        key_action_of(page, editing, popup_shown, Key::Char('r'), ctrl) != key_action_of(
            page,
            editing,
            popup_shown,
            Key::Char('n'),
            ctrl,
        ),
        key_action_of(page, editing, popup_shown, Key::Char('['), ctrl) == KeyAction::SelectPage(1isize),
        key_action_of(page, editing, popup_shown, Key::Char(']'), ctrl) == KeyAction::SelectPage(
            -1isize,
        ),
        key_action_of(page, editing, popup_shown, Key::Char('?'), ctrl) == KeyAction::TogglePopup,
        key_action_of(page, editing, popup_shown, Key::Char('q'), ctrl) == (if popup_shown {
            KeyAction::HidePopup
        } else {
            KeyAction::Quit
        }),
{
}

} // verus!
