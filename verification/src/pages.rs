//! The state of the interface's pages and the geometry of their blocks.

use vstd::prelude::*;
use crate::config::Preset;
use crate::cycle::cycle_index;
use crate::engine::{render_time, time_text};
use crate::session::session_name;
use crate::state::TimerState;
use crate::text::{concat_str, decimal, decimal_string};

verus! {

/// The history page: the first row shown, and how far it can scroll.
pub struct HistoryPage {
    pub max_history_index: usize,
    pub crr_history_index: usize,
}

impl Default for HistoryPage {
    fn default() -> (p: HistoryPage)
        ensures
            p.max_history_index == 10,
            p.crr_history_index == 0,
    {
        HistoryPage { max_history_index: 10, crr_history_index: 0 }
    }
}

impl HistoryPage {
    /// Scrolls up by a row, unless at the top.
    pub fn up(&mut self)
        ensures
            final(self).max_history_index == old(self).max_history_index,
            final(self).crr_history_index == if old(self).crr_history_index > 0 {
                (old(self).crr_history_index - 1) as usize
            } else {
                0
            },
    {
        if self.crr_history_index > 0 {
            self.crr_history_index -= 1;
        }
    }

    /// Scrolls down by a row, unless at the bottom.
    pub fn down(&mut self)
        ensures
            final(self).max_history_index == old(self).max_history_index,
            final(self).crr_history_index == if old(self).crr_history_index < old(
                self,
            ).max_history_index {
                (old(self).crr_history_index + 1) as usize
            } else {
                old(self).crr_history_index
            },
    {
        if self.crr_history_index < self.max_history_index {
            self.crr_history_index += 1;
        }
    }

    /// The rows to show of a history of `total` entries in an area
    /// `area_height` rows high (two of which the table's heading takes), as
    /// the range `start..end`; records how far the page can now scroll.
    pub fn visible_rows(&mut self, total: usize, area_height: u16) -> (r: (usize, usize))
        requires
            area_height >= 2,
            crate::pages::min(old(self).crr_history_index as int, old(self).max_history_index as int)
                + area_height - 2 <= usize::MAX,
        ensures
            ({
                let rows = area_height - 2;
                let start = min(
                    old(self).crr_history_index as int,
                    old(self).max_history_index as int,
                );
                &&& r.0 == start
                &&& r.1 == min(start + rows, total as int)
                &&& final(self).max_history_index == if total > rows {
                    total - rows
                } else {
                    0
                }
                &&& final(self).crr_history_index == old(self).crr_history_index
            }),
    {
        let row_available = (area_height - 2) as usize;
        let start = if self.crr_history_index < self.max_history_index {
            self.crr_history_index
        } else {
            self.max_history_index
        };
        let n = if start + row_available < total {
            start + row_available
        } else {
            total
        };
        if total > row_available {
            self.max_history_index = total - row_available;
        } else {
            self.max_history_index = 0;
        }
        (start, n)
    }
}

/// The smaller of two integers.
pub open spec fn min(a: int, b: int) -> int {
    if a < b {
        a
    } else {
        b
    }
}

/// The presets list's cursor goes round: moving it up and then down, or
/// down and then up, brings it back to the preset it was on.
pub proof fn lemma_preset_cursor_round(i: int, count: int)
    requires
        0 <= i < count,
    ensures
        ((i - 1) % count + 1) % count == i,
        ((i + 1) % count - 1) % count == i,
{
    vstd::arithmetic::div_mod::lemma_small_mod(i as nat, count as nat);
    if i == 0 {
        vstd::arithmetic::div_mod::lemma_mod_self_0(count);
        assert((i - 1) % count == count - 1) by {
            vstd::arithmetic::div_mod::lemma_mod_add_multiples_vanish(-1, count);
            vstd::arithmetic::div_mod::lemma_small_mod((count - 1) as nat, count as nat);
        }
    } else {
        vstd::arithmetic::div_mod::lemma_small_mod((i - 1) as nat, count as nat);
    }
    if i + 1 == count {
        vstd::arithmetic::div_mod::lemma_mod_self_0(count);
        assert((0 - 1) % count == count - 1) by {
            vstd::arithmetic::div_mod::lemma_mod_add_multiples_vanish(-1, count);
            vstd::arithmetic::div_mod::lemma_small_mod((count - 1) as nat, count as nat);
        }
    } else {
        vstd::arithmetic::div_mod::lemma_small_mod((i + 1) as nat, count as nat);
    }
}

/// The timer page: which preset the list's cursor is on.
pub struct TimerPage {
    pub preset_selected_index: usize,
}

impl Default for TimerPage {
    fn default() -> (p: TimerPage)
        ensures
            p.preset_selected_index == 0,
    {
        TimerPage { preset_selected_index: 0 }
    }
}

impl TimerPage {
    /// Moves the cursor to the previous of `count` presets, wrapping around.
    pub fn up(&mut self, count: usize)
        requires
            count > 0,
            count <= isize::MAX,
            old(self).preset_selected_index < isize::MAX,
        ensures
            final(self).preset_selected_index == (old(self).preset_selected_index - 1) % (
            count as int),
    {
        self.up_or_down(count, -1);
    }

    /// Moves the cursor to the next of `count` presets, wrapping around.
    pub fn down(&mut self, count: usize)
        requires
            count > 0,
            count <= isize::MAX,
            old(self).preset_selected_index < isize::MAX,
        ensures
            final(self).preset_selected_index == (old(self).preset_selected_index + 1) % (
            count as int),
    {
        self.up_or_down(count, 1);
    }

    fn up_or_down(&mut self, count: usize, offset: isize)
        requires
            count > 0,
            count <= isize::MAX,
            old(self).preset_selected_index < isize::MAX,
            -1 <= offset <= 1,
        ensures
            final(self).preset_selected_index == (old(self).preset_selected_index + offset) % (
            count as int),
    {
        self.preset_selected_index = cycle_index(self.preset_selected_index, count, offset);
    }

    /// Keeps the cursor within a list of `count` presets.
    pub fn clamp_selection(&mut self, count: usize)
        ensures
            final(self).preset_selected_index == if old(self).preset_selected_index >= count
                && count > 0 {
                (count - 1) as usize
            } else {
                old(self).preset_selected_index
            },
    {
        if self.preset_selected_index >= count && count > 0 {
            self.preset_selected_index = count - 1;
        }
    }

    /// The name of the preset under the cursor, among the names sorted.
    pub fn select_preset(&self, sorted_names: &Vec<String>) -> (r: Option<String>)
        ensures
            self.preset_selected_index < sorted_names@.len() ==> r == Some(
                sorted_names@[self.preset_selected_index as int],
            ),
            self.preset_selected_index >= sorted_names@.len() ==> r is None,
    {
        if self.preset_selected_index < sorted_names.len() {
            Some(sorted_names[self.preset_selected_index].clone())
        } else {
            None
        }
    }
}

/// A rectangle of the terminal, in cells.
#[derive(Clone, Copy, Debug, PartialEq, Eq, Structural)]
pub struct Area {
    pub x: u16,
    pub y: u16,
    pub width: u16,
    pub height: u16,
}

/// A length from `start` on, cut where it would pass the largest
/// coordinate.
pub open spec fn clamped_len(start: u16, len: u16) -> u16 {
    if start + len > u16::MAX {
        (u16::MAX - start) as u16
    } else {
        len
    }
}

/// The area at `x`, `y` of the given size, cut where it would pass the
/// largest coordinate.
pub open spec fn area_at(x: u16, y: u16, width: u16, height: u16) -> Area {
    Area { x, y, width: clamped_len(x, width), height: clamped_len(y, height) }
}

/// An area at `x`, `y` of the given size, cut where it would pass the
/// largest coordinate.
pub fn new_area(x: u16, y: u16, width: u16, height: u16) -> (r: Area)
    ensures
        r == area_at(x, y, width, height),
{
    Area { x, y, width: x.saturating_add(width) - x, height: y.saturating_add(height) - y }
}

/// Splits an area into a left and a right half that share their middle
/// column.
pub fn split_vertical(area: Area) -> (r: (Area, Area))
    requires
        area.x + (if area.width == 0 {
            0
        } else {
            (area.width - 1) / 2
        }) <= u16::MAX,
    ensures
        ({
            let mid = if area.width == 0 {
                0
            } else {
                (area.width - 1) / 2
            };
            &&& r.0 == area_at(area.x, area.y, (mid + 1) as u16, area.height)
            &&& r.1 == area_at((area.x + mid) as u16, area.y, (area.width - mid) as u16, area.height)
        }),
{
    let w = area.width;
    let mid = w.saturating_sub(1) / 2;
    let left = new_area(area.x, area.y, mid + 1, area.height);
    let right = new_area(area.x + mid, area.y, w - mid, area.height);
    (left, right)
}

/// The right-hand side of the header: the session's name, its number in
/// the cycle, a play or pause glyph, and the time left.
pub open spec fn header_text_of(state: TimerState, preset: Preset) -> Seq<char> {
    session_name(state.session_type) + " "@ + decimal(state.session_number as nat) + "/"@
        + decimal(preset.sessions_before_long_break as nat) + "  "@ + (if state.running {
        "\u{f04c}"@
    } else {
        "\u{f04b}"@
    }) + " "@ + time_text(state.time_remaining)
}

/// The right-hand side of the header.
pub fn header_text(state: &TimerState, preset: &Preset) -> (r: String)
    ensures
        r@ == header_text_of(*state, *preset),
{
    let mut r = concat_str(state.session_type.name(), " ");
    let n = decimal_string(state.session_number);
    r.append(n.as_str());
    r.append("/");
    let total = decimal_string(preset.sessions_before_long_break);
    r.append(total.as_str());
    r.append("  ");
    r.append(
        if state.running {
            "\u{f04c}"
        } else {
            "\u{f04b}"
        },
    );
    r.append(" ");
    let t = render_time(state);
    r.append(t.as_str());
    r
}

/// The line of a preset in the presets list: a marker on the active one,
/// then its name, its three lengths in minutes and its cycle.
pub open spec fn preset_line_text(name: Seq<char>, active: bool, p: Preset) -> Seq<char> {
    (if active {
        ">"@
    } else {
        " "@
    }) + " "@ + name + " "@ + decimal(p.work_minutes as nat) + "/"@ + decimal(
        p.short_break_minutes as nat,
    ) + "/"@ + decimal(p.long_break_minutes as nat) + " x "@ + decimal(
        p.sessions_before_long_break as nat,
    )
}

/// The line of a preset in the presets list.
pub fn preset_line(name: &str, active: bool, preset: &Preset) -> (s: String)
    ensures
        s@ == preset_line_text(name@, active, *preset),
{
    let mut s = String::from_str(
        if active {
            ">"
        } else {
            " "
        },
    );
    s.append(" ");
    s.append(name);
    s.append(" ");
    s.append(decimal_string(preset.work_minutes).as_str());
    s.append("/");
    s.append(decimal_string(preset.short_break_minutes).as_str());
    s.append("/");
    s.append(decimal_string(preset.long_break_minutes).as_str());
    s.append(" x ");
    s.append(decimal_string(preset.sessions_before_long_break).as_str());
    s
}

/// Which frame of the clock or coffee animation shows: the frames change
/// every four hundred milliseconds while the session runs; a paused session
/// shows the first.
pub fn art_frame_index(millis: u128, running: bool, frames: usize) -> (i: usize)
    requires
        frames > 0,
    ensures
        i == (if running {
            ((millis / 400) as usize) % frames
        } else {
            0
        }),
        i < frames,
{
    if running {
        ((millis / 400) as usize) % frames
    } else {
        0
    }
}

} // verus!
