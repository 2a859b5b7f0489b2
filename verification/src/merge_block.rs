//! Blocks that share their borders with their neighbours: where a block
//! draws its top separator, its left border and the tees that join them,
//! and the area left for its content.

use vstd::prelude::*;
use crate::pages::{Area, area_at, new_area};
use crate::text::concat_str;
use vstd::string::StringSliceAdditionalSpecFns;

verus! {

/// A block drawn inside a bordered frame, sharing the frame's borders.
pub struct MergeBlock<'a> {
    pub title: &'a str,
    pub top: bool,
    pub left: bool,
    pub padding: bool,
}

impl<'a> MergeBlock<'a> {
    /// A block with a title, no top separator, no left border, and padding.
    pub fn new(title: &'a str) -> (b: MergeBlock<'a>)
        ensures
            b.title == title,
            !b.top,
            !b.left,
            b.padding,
    {
        MergeBlock { title, top: false, left: false, padding: true }
    }

    /// The block with a separator line on top.
    pub fn top(self) -> (b: MergeBlock<'a>)
        ensures
            b == (MergeBlock { top: true, ..self }),
    {
        let mut s = self;
        s.top = true;
        s
    }

    /// The block with a border on its left.
    pub fn left(self) -> (b: MergeBlock<'a>)
        ensures
            b == (MergeBlock { left: true, ..self }),
    {
        let mut s = self;
        s.left = true;
        s
    }

    /// The block without padding.
    pub fn no_padding(self) -> (b: MergeBlock<'a>)
        ensures
            b == (MergeBlock { padding: false, ..self }),
    {
        let mut s = self;
        s.padding = false;
        s
    }
}

/// `n` copies of `c`.
pub open spec fn repeat_char(c: char, n: nat) -> Seq<char> {
    Seq::new(n, |i: int| c)
}

/// `n` horizontal box-drawing lines.
fn repeat_line(n: usize) -> (s: String)
    ensures
        s@ == repeat_char('─', n as nat),
{
    let mut s = String::new();
    let mut i: usize = 0;
    while i < n
        invariant
            i <= n,
            s@ == repeat_char('─', i as nat),
        decreases n - i,
    {
        proof {
            reveal_strlit("─");
        }
        s.append("─");
        proof {
            assert(s@ =~= repeat_char('─', (i + 1) as nat));
        }
        i = i + 1;
    }
    s
}

/// `a - b`, or zero when `b` is the larger.
pub open spec fn sat_sub(a: int, b: int) -> nat {
    if a > b {
        (a - b) as nat
    } else {
        0
    }
}

/// The separator line on top of a block `border_w` cells wide: a tee on
/// the left (a down tee where the block also has a left border), then the
/// title if any, lines, and a tee on the right. The title's length counts
/// its bytes.
pub open spec fn separator_text(title: Seq<char>, title_bytes: nat, left: bool, border_w: nat) -> Seq<
    char,
> {
    let left_char = if left {
        "┬"@
    } else {
        "├"@
    };
    if title.len() == 0 {
        left_char + repeat_char('─', sat_sub(border_w as int, 2)) + "┤"@
    } else {
        left_char + "─ "@ + title + repeat_char('─', sat_sub(border_w as int, 4 + title_bytes as int))
            + "┤"@
    }
}

/// Where a block draws: its separator line and the text of it, the tees
/// where blocks that ended above it meet its separator, its left border,
/// the tee it leaves for the block below, and the area of its content.
pub struct MergeLayout {
    pub separator: Option<(Area, String)>,
    pub tees: Vec<Area>,
    pub left_border: Option<Area>,
    pub new_tee: Option<(u16, u16)>,
    pub content: Area,
}

/// The tees of earlier blocks that meet the separator of a block at row
/// `y` that starts at column `border_x` and is `border_w` wide: those on
/// row `y` strictly inside the separator's ends.
pub open spec fn tee_shown(tee: (u16, u16), y: u16, border_x: u16, border_w: u16) -> bool {
    tee.1 == y && 0 < tee.0 - border_x < border_w - 1
}

/// The tees shown, in the order recorded, each as a cell.
pub open spec fn shown_tees(tees: Seq<(u16, u16)>, y: u16, border_x: u16, border_w: u16) -> Seq<
    Area,
>
    decreases tees.len(),
{
    if tees.len() == 0 {
        seq![]
    } else {
        let rest = shown_tees(tees.drop_last(), y, border_x, border_w);
        if tee_shown(tees.last(), y, border_x, border_w) {
            rest.push(area_at(tees.last().0, y, 1, 1))
        } else {
            rest
        }
    }
}

impl<'a> MergeBlock<'a> {
    /// The block's layout in `area`, given the tees that blocks above
    /// recorded.
    pub fn layout(&self, area: Area, tees: &Vec<(u16, u16)>) -> (r: MergeLayout)
        requires
            self.title.spec_bytes().len() + 4 <= usize::MAX,
            self.top ==> area.width + 2 <= u16::MAX && area.height >= 1,
            self.left && area.height - (if self.top {
                1int
            } else {
                0
            }) > 0 ==> area.y + area.height <= u16::MAX,
            self.padding ==> area.x + 1 <= u16::MAX,
            area.y + (if self.top {
                1int
            } else {
                0
            }) + (if self.padding {
                1int
            } else {
                0
            }) <= u16::MAX,
        ensures
            ({
                let border_x = if area.x >= 1 {
                    (area.x - 1) as u16
                } else {
                    0u16
                };
                let t: int = if self.top {
                    1
                } else {
                    0
                };
                let pad: int = if self.padding {
                    1
                } else {
                    0
                };
                let content_y = area.y + t;
                let content_height = area.height - t;
                &&& self.top ==> (r.separator matches Some((a, s)) && a == area_at(
                    border_x,
                    area.y,
                    (area.width + 2) as u16,
                    1,
                ) && s@ == separator_text(
                    self.title@,
                    self.title.spec_bytes().len(),
                    self.left,
                    (area.width + 2) as nat,
                ) && r.tees@ == shown_tees(tees@, area.y, border_x, (area.width + 2) as u16))
                &&& !self.top ==> r.separator is None && r.tees@.len() == 0
                &&& (self.left && content_height > 0) ==> r.left_border == Some(
                    area_at(border_x, content_y as u16, 1, content_height as u16),
                ) && r.new_tee == Some((border_x, (area.y + area.height) as u16))
                &&& !(self.left && content_height > 0) ==> r.left_border is None && r.new_tee is None
                &&& r.content == area_at(
                    (area.x + pad) as u16,
                    (content_y + pad) as u16,
                    sat_sub(area.width as int, 2 * pad) as u16,
                    sat_sub(content_height, 2 * pad) as u16,
                )
            }),
    {
        let border_x = area.x.saturating_sub(1);
        let mut separator = None;
        let mut shown: Vec<Area> = Vec::new();
        if self.top {
            let border_w = area.width + 2;
            let left_char = if self.left {
                "┬"
            } else {
                "├"
            };
            let sep = if self.title.unicode_len() == 0 {
                let mut s = String::from_str(left_char);
                let line = repeat_line((border_w as usize).saturating_sub(2));
                s.append(line.as_str());
                s.append("┤");
                s
            } else {
                let fill = (border_w as usize).saturating_sub(4 + self.title.len());
                let mut s = concat_str(left_char, "─ ");
                s.append(self.title);
                let line = repeat_line(fill);
                s.append(line.as_str());
                s.append("┤");
                s
            };
            separator = Some((new_area(border_x, area.y, border_w, 1), sep));
            let mut i: usize = 0;
            proof {
                assert(tees@.take(0) =~= Seq::<(u16, u16)>::empty());
            }
            while i < tees.len()
                invariant
                    i <= tees@.len(),
                    border_w == area.width + 2,
                    shown@ == shown_tees(tees@.take(i as int), area.y, border_x, border_w),
                decreases tees@.len() - i,
            {
                let (col, row) = tees[i];
                proof {
                    assert(tees@.take(i as int + 1).drop_last() =~= tees@.take(i as int));
                    assert(tees@.take(i as int + 1).last() == tees@[i as int]);
                }
                if row == area.y {
                    let idx: i32 = col as i32 - border_x as i32;
                    if idx > 0 && idx < border_w as i32 - 1 {
                        shown.push(new_area(col, area.y, 1, 1));
                    }
                }
                i = i + 1;
            }
            proof {
                assert(tees@.take(tees@.len() as int) =~= tees@);
            }
        }
        let t: u16 = if self.top {
            1
        } else {
            0
        };
        let content_y = area.y + t;
        let content_height = area.height - t;
        let mut left_border = None;
        let mut new_tee = None;
        if self.left && content_height > 0 {
            left_border = Some(new_area(border_x, content_y, 1, content_height));
            new_tee = Some((border_x, area.y + area.height));
        }
        let pad: u16 = if self.padding {
            1
        } else {
            0
        };
        let content = new_area(
            area.x + pad,
            content_y + pad,
            area.width.saturating_sub(2 * pad),
            content_height.saturating_sub(2 * pad),
        );
        MergeLayout { separator, tees: shown, left_border, new_tee, content }
    }
}

} // verus!
