//! Inserting finished history rows into the terminal's scrollback: the
//! scroll-region escape sequences, how many rows the lines take, and where
//! the viewport moves.
use vstd::prelude::*;

use crate::text::{dec, owned, push_dec};

verus! {

/// How history lines are wrapped before they are written: by the library,
/// or left to the terminal.
#[derive(Clone, Copy, Debug, PartialEq, Eq, Structural)]
pub enum HistoryLineWrapPolicy {
    PreWrap,
    Terminal,
}

/// How history is written above the viewport.
#[derive(Clone, Copy, Debug, PartialEq, Eq, Structural)]
pub enum InsertHistoryMode {
    Standard,
    FullScreen,
}

/// The command that limits scrolling to the rows `start..end` (1-based).
#[derive(Clone, Copy, Debug, PartialEq, Eq, Structural)]
pub struct SetScrollRegion {
    pub start: u16,
    pub end: u16,
}

impl SetScrollRegion {
    /// The escape sequence: `ESC [ start ; end r`.
    pub fn ansi(&self) -> (r: String)
        ensures
            r@ == "\x1b["@ + dec(self.start as nat) + ";"@ + dec(self.end as nat) + "r"@,
    {
        let mut s = owned("\x1b[");
        push_dec(&mut s, self.start as u64);
        s.append(";");
        push_dec(&mut s, self.end as u64);
        s.append("r");
        s
    }
}

/// The command that lifts the scroll region.
#[derive(Clone, Copy, Debug, PartialEq, Eq, Structural)]
pub struct ResetScrollRegion;

impl ResetScrollRegion {
    /// The escape sequence: `ESC [ r`.
    pub fn ansi(&self) -> (r: String)
        ensures
            r@ == "\x1b[r"@,
    {
        owned("\x1b[r")
    }
}

/// The rows a line of display width `width` takes at `wrap_width` columns:
/// at least one.
pub open spec fn physical_rows(width: nat, wrap_width: nat) -> nat
    recommends
        wrap_width > 0,
{
    let w = if width >= 1 {
        width
    } else {
        1
    };
    ((w + wrap_width - 1) as int / wrap_width as int) as nat
}

/// The rows the first `n` lines take.
pub open spec fn rows_total(widths: Seq<usize>, wrap_width: nat, n: int) -> nat
    decreases n,
{
    if n <= 0 {
        0
    } else {
        rows_total(widths, wrap_width, n - 1) + physical_rows(widths[n - 1] as nat, wrap_width)
    }
}

/// The rows the wrapped lines of the given display widths take at
/// `wrap_width` columns (`rows_total`), saturating.
pub fn history_rows(widths: &[usize], wrap_width: usize) -> (r: usize)
    requires
        wrap_width > 0,
    ensures
        rows_total(widths@, wrap_width as nat, widths@.len() as int) <= usize::MAX ==> r
            == rows_total(widths@, wrap_width as nat, widths@.len() as int),
        rows_total(widths@, wrap_width as nat, widths@.len() as int) > usize::MAX ==> r == usize::MAX,
{
    let mut total: usize = 0;
    let mut exact = true;
    let mut i: usize = 0;
    while i < widths.len()
        invariant
            i <= widths.len(),
            wrap_width > 0,
            exact ==> total == rows_total(widths@, wrap_width as nat, i as int),
            !exact ==> total == usize::MAX && rows_total(widths@, wrap_width as nat, i as int)
                > usize::MAX,
        decreases widths.len() - i,
    {
        let w = if widths[i] >= 1 {
            widths[i]
        } else {
            1
        };
        let q = w / wrap_width;
        assert(w % wrap_width != 0 ==> q < usize::MAX) by (nonlinear_arith)
            requires
                q == w / wrap_width,
                wrap_width > 0,
                w <= usize::MAX,
        ;
        let rows = if w % wrap_width == 0 {
            q
        } else {
            q + 1
        };
        assert(rows == physical_rows(widths@[i as int] as nat, wrap_width as nat)) by (
        nonlinear_arith)
            requires
                wrap_width > 0,
                w >= 1,
                rows == w / wrap_width + if w % wrap_width == 0 {
                    0int
                } else {
                    1int
                },
                q == w / wrap_width,
                w == if widths@[i as int] >= 1 {
                    widths@[i as int] as int
                } else {
                    1int
                },
        ;
        if exact {
            if total <= usize::MAX - rows {
                total = total + rows;
            } else {
                total = usize::MAX;
                exact = false;
            }
        }
        i = i + 1;
    }
    total
}

/// Where the viewport and cursor go when history is written in the
/// standard way: the viewport scrolls down by up to `rows` rows, as far as
/// the screen lets it, and lines are written from the row above it.
pub open spec fn standard_plan(area_y: u16, area_height: u16, screen_height: u16, rows: u16) -> (
    u16,
    u16,
    u16,
) {
    let bottom = if area_y + area_height <= u16::MAX {
        area_y + area_height
    } else {
        u16::MAX as int
    };
    let cursor_top = if area_y >= 1 {
        area_y - 1
    } else {
        0
    };
    if bottom < screen_height {
        let room = screen_height - bottom;
        let scroll = if rows <= room {
            rows as int
        } else {
            room
        };
        (scroll as u16, cursor_top as u16, (area_y + scroll) as u16)
    } else {
        (0, cursor_top as u16, area_y)
    }
}

/// Where the viewport goes when history is written in the standard way:
/// the rows it scrolls, the row the lines are written after, and the
/// viewport's new top (`standard_plan`).
pub fn standard_insert_plan(area_y: u16, area_height: u16, screen_height: u16, rows: u16) -> (r: (
    u16,
    u16,
    u16,
))
    ensures
        r == standard_plan(area_y, area_height, screen_height, rows),
{
    let bottom = area_y.saturating_add(area_height);
    let cursor_top = area_y.saturating_sub(1);
    if bottom < screen_height {
        let room = screen_height - bottom;
        let scroll = if rows <= room {
            rows
        } else {
            room
        };
        (scroll, cursor_top, area_y + scroll)
    } else {
        (0, cursor_top, area_y)
    }
}

/// The viewport's new top after a full-screen replay of `rows` rows: moved
/// down by them, but not so far that the viewport leaves the screen.
pub fn full_screen_viewport_top(area_y: u16, area_height: u16, screen_height: u16, rows: u16) -> (r:
    u16)
    ensures
        r == ({
            let moved = if area_y + rows <= u16::MAX {
                area_y + rows
            } else {
                u16::MAX as int
            };
            let limit = if screen_height >= area_height {
                screen_height - area_height
            } else {
                0
            };
            if moved <= limit {
                moved
            } else {
                limit
            }
        }),
{
    let moved = area_y.saturating_add(rows);
    let limit = screen_height.saturating_sub(area_height);
    if moved <= limit {
        moved
    } else {
        limit
    }
}

} // verus!
