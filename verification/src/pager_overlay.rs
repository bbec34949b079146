//! The full-screen pager used for the status summary and the transcript:
//! its scroll state, key handling, layout bounds and the anchor that keeps
//! the same transcript row in view when history is prepended or the width
//! changes.
//!
//! Lines are identified by a key the caller derives from each rendered line
//! (its text); their wrapped heights at a width are measured by the caller.
use vstd::prelude::*;

use crate::locale::Locale;
use crate::text::{owned, push_dec, str_eq};

verus! {

/// What a key does to the pager.
#[derive(Clone, Copy, Debug, PartialEq, Eq, Structural)]
pub enum PagerAction {
    Consumed,
    LoadOlderHistory,
    Close,
}

/// The keys the pager tells apart.
#[derive(Clone, Copy, Debug, PartialEq, Eq, Structural)]
pub enum PagerKey {
    Esc,
    Char(char),
    Up,
    Down,
    PageUp,
    PageDown,
    Home,
    End,
    Other,
}

/// A key event: the key, whether Control was held, and whether it is a
/// press (rather than a release or repeat).
#[derive(Clone, Copy, Debug, PartialEq, Eq, Structural)]
pub struct PagerKeyEvent {
    pub code: PagerKey,
    pub control: bool,
    pub press: bool,
}

/// The scroll position of a pager, in wrapped rows.
#[derive(Clone, Copy, Debug, PartialEq, Eq, Structural)]
pub struct ScrollState {
    pub scroll: usize,
    pub page_height: usize,
    pub max_scroll: usize,
    pub pinned_to_bottom: bool,
}

/// The facts shown by the status pager.
pub struct StatusFacts<'a> {
    pub thread_id: Option<&'a str>,
    pub model: Option<&'a str>,
    pub provider: Option<&'a str>,
    pub effort: Option<&'a str>,
    pub permissions: Option<&'a str>,
    pub cwd: &'a str,
    pub status: &'a str,
}

pub open spec fn sat_sub(a: int, b: int) -> int {
    if a >= b {
        a - b
    } else {
        0
    }
}

pub open spec fn sat_add(a: int, b: int) -> int {
    if a + b <= usize::MAX {
        a + b
    } else {
        usize::MAX as int
    }
}

/// What a key event does to a pager: the new scroll state and the action.
/// Esc and `q` close; Control+T closes the transcript; the arrows, page and
/// home/end keys move within `0..=max_scroll` (End pins the view to the
/// bottom, moving up unpins it, moving down re-pins it at the bottom); at
/// the top of a transcript with older history, moving up asks for it. Other
/// keys and non-press events change nothing.
pub open spec fn key_step(
    transcript: bool,
    older_available: bool,
    s: ScrollState,
    k: PagerKeyEvent,
) -> (ScrollState, PagerAction) {
    let page = if s.page_height >= 1 {
        s.page_height as int
    } else {
        1
    };
    let load_older = transcript && older_available && (k.code == PagerKey::Up || k.code
        == PagerKey::PageUp || k.code == PagerKey::Home);
    let moved: Option<(int, bool)> = match k.code {
        PagerKey::Up => Some((sat_sub(s.scroll as int, 1), false)),
        PagerKey::Down => Some((sat_add(s.scroll as int, 1), s.pinned_to_bottom)),
        PagerKey::PageUp => Some((sat_sub(s.scroll as int, page), false)),
        PagerKey::PageDown => Some((sat_add(s.scroll as int, page), s.pinned_to_bottom)),
        PagerKey::Home => Some((0, false)),
        PagerKey::End => Some((s.max_scroll as int, true)),
        _ => None,
    };
    if !k.press {
        (s, PagerAction::Consumed)
    } else if k.code == PagerKey::Esc || k.code == PagerKey::Char('q') {
        (s, PagerAction::Close)
    } else if transcript && k.control && (k.code == PagerKey::Char('t') || k.code == PagerKey::Char(
        'T',
    )) {
        (s, PagerAction::Close)
    } else {
        match moved {
            None => (s, PagerAction::Consumed),
            Some((scroll, pinned)) => {
                let clamped = if scroll <= s.max_scroll {
                    scroll
                } else {
                    s.max_scroll as int
                };
                let pinned2 = if k.code == PagerKey::Down || k.code == PagerKey::PageDown {
                    clamped == s.max_scroll
                } else {
                    pinned
                };
                (
                    ScrollState {
                        scroll: clamped as usize,
                        page_height: s.page_height,
                        max_scroll: s.max_scroll,
                        pinned_to_bottom: pinned2,
                    },
                    if load_older && clamped == 0 {
                        PagerAction::LoadOlderHistory
                    } else {
                        PagerAction::Consumed
                    },
                )
            },
        }
    }
}

/// The scroll state after a layout of `total_height` wrapped rows in a
/// content area `content_height` rows tall: the view stays within the new
/// bounds, or at the bottom when pinned there.
pub open spec fn layout_step(s: ScrollState, total_height: nat, content_height: nat) -> ScrollState {
    let max = sat_sub(total_height as int, content_height as int);
    ScrollState {
        scroll: (if s.pinned_to_bottom {
            max
        } else if s.scroll <= max {
            s.scroll as int
        } else {
            max
        }) as usize,
        page_height: (if content_height >= 1 {
            content_height as int
        } else {
            1
        }) as usize,
        max_scroll: max as usize,
        pinned_to_bottom: s.pinned_to_bottom,
    }
}

/// The rows a line of wrapped height `h` takes: at least one.
pub open spec fn rows_of(h: usize) -> int {
    if h >= 1 {
        h as int
    } else {
        1
    }
}

/// The row after the first `n` lines, the sum saturating.
pub open spec fn line_end(heights: Seq<usize>, n: int) -> int
    decreases n,
{
    if n <= 0 {
        0
    } else {
        sat_add(line_end(heights, n - 1), rows_of(heights[n - 1]))
    }
}

/// The start row of each line.
pub open spec fn line_starts(heights: Seq<usize>) -> Seq<usize> {
    Seq::new(heights.len(), |i: int| line_end(heights, i) as usize)
}

proof fn lemma_line_end_bounds(heights: Seq<usize>, n: int)
    ensures
        0 <= line_end(heights, n) <= usize::MAX,
    decreases n,
{
    if n > 0 {
        lemma_line_end_bounds(heights, n - 1);
    }
}

/// The start row of each line (`line_starts`).
pub fn wrapped_line_starts(heights: &[usize]) -> (r: Vec<usize>)
    ensures
        r@ == line_starts(heights@),
{
    let mut starts: Vec<usize> = Vec::new();
    let mut offset: usize = 0;
    let mut i: usize = 0;
    while i < heights.len()
        invariant
            i <= heights.len(),
            starts@ =~= Seq::new(i as nat, |j: int| line_end(heights@, j) as usize),
            offset as int == line_end(heights@, i as int),
        decreases heights.len() - i,
    {
        proof {
            lemma_line_end_bounds(heights@, i as int);
        }
        starts.push(offset);
        let h = if heights[i] >= 1 {
            heights[i]
        } else {
            1
        };
        offset = offset.saturating_add(h);
        i = i + 1;
    }
    starts
}

/// The position of the view within the transcript, as a percentage shown in
/// the separator: 100 when nothing can scroll.
pub open spec fn scroll_percent(scroll: nat, max_scroll: nat) -> nat {
    if max_scroll == 0 {
        100
    } else {
        (if scroll * 100 <= usize::MAX {
            scroll * 100
        } else {
            usize::MAX as nat
        }) / max_scroll
    }
}

/// The scroll percentage (`scroll_percent`).
pub fn percent(scroll: usize, max_scroll: usize) -> (r: usize)
    ensures
        r as nat == scroll_percent(scroll as nat, max_scroll as nat),
{
    let product: usize = if scroll <= usize::MAX / 100 {
        scroll * 100
    } else {
        usize::MAX
    };
    if max_scroll == 0 {
        100
    } else {
        product / max_scroll
    }
}

/// The pager.
pub struct PagerOverlay {
    title: String,
    static_lines: Option<Vec<String>>,
    state: ScrollState,
    older_history_available: bool,
    /// The line keys and wrapped heights of the transcript last laid out,
    /// used to keep the same logical row in view.
    previous_lines: Option<(Vec<String>, Vec<usize>)>,
    previous_content_width: u16,
}

/// The line of the status pager for one field: `label: value`.
pub open spec fn field_line(label: Seq<char>, value: Seq<char>) -> Seq<char> {
    label + ": "@ + value
}

/// A field's value, or the locale's "not set" text.
pub open spec fn value_or_unset(locale: Locale, v: Option<&str>) -> Seq<char> {
    match v {
        Some(x) => x@,
        None => locale.not_set_label_text(),
    }
}

/// The status lines: thread, model, provider, effort, permissions, working
/// directory and state, each labelled in the locale; an empty status reads
/// as ready, any other is translated.
pub open spec fn status_lines(locale: Locale, facts: StatusFacts) -> Seq<Seq<char>> {
    seq![
        field_line(locale.thread_label_text(), value_or_unset(locale, facts.thread_id)),
        field_line(locale.model_label_text(), value_or_unset(locale, facts.model)),
        field_line(locale.provider_label_text(), value_or_unset(locale, facts.provider)),
        field_line(locale.effort_label_text(), value_or_unset(locale, facts.effort)),
        field_line(locale.permissions_label_text(), value_or_unset(locale, facts.permissions)),
        field_line(locale.cwd_label_text(), facts.cwd@),
        field_line(
            locale.state_label_text(),
            if facts.status@.len() == 0 {
                locale.ready_label_text()
            } else {
                locale.status_text(facts.status@)
            },
        ),
    ]
}

fn field(label: &str, value: &str) -> (r: String)
    ensures
        r@ == field_line(label@, value@),
{
    let mut s = owned(label);
    s.append(": ");
    s.append(value);
    s
}

fn value_text(locale: Locale, v: Option<&str>) -> (r: String)
    ensures
        r@ == value_or_unset(locale, v),
{
    match v {
        Some(x) => owned(x),
        None => owned(locale.not_set_label()),
    }
}

/// The common prefix length of two key lists, by key text.
pub open spec fn common_prefix(a: Seq<String>, b: Seq<String>, n: int) -> int
    decreases n,
{
    if n <= 0 {
        0
    } else if common_prefix(a, b, n - 1) == n - 1 && n - 1 < a.len() && n - 1 < b.len() && a[n - 1]@
        == b[n - 1]@ {
        n
    } else {
        common_prefix(a, b, n - 1)
    }
}

/// The common suffix length of two key lists, by key text.
pub open spec fn common_suffix(a: Seq<String>, b: Seq<String>, n: int) -> int
    decreases n,
{
    if n <= 0 {
        0
    } else if common_suffix(a, b, n - 1) == n - 1 && n - 1 < a.len() && n - 1 < b.len() && a[a.len()
        - n]@ == b[b.len() - n]@ {
        n
    } else {
        common_suffix(a, b, n - 1)
    }
}

/// Whether `a` and `b` hold the same keys.
pub open spec fn same_keys(a: Seq<String>, b: Seq<String>) -> bool {
    a.len() == b.len() && forall|i: int| 0 <= i < a.len() ==> #[trigger] a[i]@ == b[i]@
}

/// The line holding row `scroll` among the first `n` lines, and the row
/// within it: the last line starting at or before the row.
pub open spec fn anchor_of(starts: Seq<usize>, scroll: int, n: int) -> (int, int)
    decreases n,
{
    if n <= 0 {
        (0, scroll)
    } else if starts[n - 1] <= scroll {
        (n - 1, scroll - starts[n - 1])
    } else {
        anchor_of(starts, scroll, n - 1)
    }
}

/// Where the logical line `old_line` of the previous transcript is in the
/// new one: the same index when the transcript kept its length and shares
/// a prefix or a suffix (a line updated in place), shifted when history was
/// prepended, the same when lines were appended; none otherwise.
pub open spec fn mapped_line(prev: Seq<String>, cur: Seq<String>, old_line: int) -> Option<int> {
    let p = common_prefix(prev, cur, prev.len() as int);
    let s = {
        let raw = common_suffix(prev, cur, prev.len() as int);
        if raw <= prev.len() - p {
            raw
        } else {
            prev.len() - p
        }
    };
    if cur.len() == prev.len() && (p > 0 || s > 0 || prev.len() == 1) {
        Some(old_line)
    } else if cur.len() >= prev.len() && same_keys(cur.skip(cur.len() - prev.len()), prev) {
        Some(old_line + cur.len() - prev.len())
    } else if cur.len() >= prev.len() && same_keys(cur.take(prev.len() as int), prev) {
        Some(old_line)
    } else {
        None
    }
}

/// The scroll after remapping: the same logical row of the same logical
/// line, kept within the line's new height; unchanged when nothing maps.
pub open spec fn remapped_scroll(
    prev: Seq<String>,
    prev_heights: Seq<usize>,
    cur: Seq<String>,
    heights: Seq<usize>,
    scroll: int,
) -> int {
    let old_starts = line_starts(prev_heights);
    let (old_line, offset) = anchor_of(old_starts, scroll, old_starts.len() as int);
    match mapped_line(prev, cur, old_line) {
        Some(m) => if 0 <= m < heights.len() {
            let starts = line_starts(heights);
            let height: int = heights[m] as int;
            sat_add(
                starts[m] as int,
                if offset <= sat_sub(height, 1) {
                    offset
                } else {
                    sat_sub(height, 1)
                },
            )
        } else {
            scroll
        },
        None => scroll,
    }
}

/// What a pager holds, as values.
pub struct PagerView {
    pub title: Seq<char>,
    /// The lines of a static pager; none for the transcript pager, whose
    /// lines come from the projection at each layout.
    pub static_lines: Option<Seq<String>>,
    pub state: ScrollState,
    pub older_history_available: bool,
    /// The keys and wrapped heights of the transcript lines last laid out.
    pub previous: Option<(Seq<String>, Seq<usize>)>,
    pub previous_content_width: u16,
}

impl View for PagerOverlay {
    type V = PagerView;

    closed spec fn view(&self) -> PagerView {
        PagerView {
            title: self.title@,
            static_lines: match self.static_lines {
                Some(v) => Some(v@),
                None => None,
            },
            state: self.state,
            older_history_available: self.older_history_available,
            previous: match self.previous_lines {
                Some(p) => Some((p.0@, p.1@)),
                None => None,
            },
            previous_content_width: self.previous_content_width,
        }
    }
}

/// A pager's state is well formed when each remembered transcript line has
/// its height.
pub open spec fn pager_wf(v: PagerView) -> bool {
    match v.previous {
        Some(p) => p.0.len() == p.1.len(),
        None => true,
    }
}

/// The scroll state of a fresh static pager: at the top, one row per page.
pub open spec fn top_state() -> ScrollState {
    ScrollState { scroll: 0, page_height: 1, max_scroll: 0, pinned_to_bottom: false }
}

/// The scroll state of a fresh transcript pager: following the tail.
pub open spec fn tail_state() -> ScrollState {
    ScrollState { scroll: usize::MAX, page_height: 1, max_scroll: 0, pinned_to_bottom: true }
}

/// The scroll state after a layout (`layout_step`).
pub fn layout_state(s: ScrollState, total_height: usize, content_height: usize) -> (r: ScrollState)
    ensures
        r == layout_step(s, total_height as nat, content_height as nat),
{
    let max_scroll = total_height.saturating_sub(content_height);
    let scroll = if s.pinned_to_bottom {
        max_scroll
    } else if s.scroll <= max_scroll {
        s.scroll
    } else {
        max_scroll
    };
    ScrollState {
        scroll,
        page_height: if content_height >= 1 {
            content_height
        } else {
            1
        },
        max_scroll,
        pinned_to_bottom: s.pinned_to_bottom,
    }
}

/// The scroll state and action after a key (`key_step`).
pub fn key_state(transcript: bool, older_available: bool, s: ScrollState, k: PagerKeyEvent) -> (r: (
    ScrollState,
    PagerAction,
))
    ensures
        r == key_step(transcript, older_available, s, k),
{
    if !k.press {
        return (s, PagerAction::Consumed);
    }
    let is_up = match k.code {
        PagerKey::Up | PagerKey::PageUp | PagerKey::Home => true,
        _ => false,
    };
    let load_older = transcript && older_available && is_up;
    let page = if s.page_height >= 1 {
        s.page_height
    } else {
        1
    };
    let (scroll, pinned, down) = match k.code {
        PagerKey::Esc => {
            return (s, PagerAction::Close);
        },
        PagerKey::Char(c) => {
            if c == 'q' || (transcript && k.control && (c == 't' || c == 'T')) {
                return (s, PagerAction::Close);
            }
            return (s, PagerAction::Consumed);
        },
        PagerKey::Up => (s.scroll.saturating_sub(1), false, false),
        PagerKey::Down => (s.scroll.saturating_add(1), s.pinned_to_bottom, true),
        PagerKey::PageUp => (s.scroll.saturating_sub(page), false, false),
        PagerKey::PageDown => (s.scroll.saturating_add(page), s.pinned_to_bottom, true),
        PagerKey::Home => (0, false, false),
        PagerKey::End => (s.max_scroll, true, false),
        PagerKey::Other => {
            return (s, PagerAction::Consumed);
        },
    };
    let clamped = if scroll <= s.max_scroll {
        scroll
    } else {
        s.max_scroll
    };
    let pinned2 = if down {
        clamped == s.max_scroll
    } else {
        pinned
    };
    let next = ScrollState {
        scroll: clamped,
        page_height: s.page_height,
        max_scroll: s.max_scroll,
        pinned_to_bottom: pinned2,
    };
    if load_older && clamped == 0 {
        (next, PagerAction::LoadOlderHistory)
    } else {
        (next, PagerAction::Consumed)
    }
}

impl PagerOverlay {
    /// The status pager: one `label: value` line per fact (`status_lines`),
    /// titled in the locale.
    pub fn status(locale: Locale, facts: StatusFacts) -> (r: PagerOverlay)
        ensures
            r@.title == locale.status_title_text(),
            r@.static_lines matches Some(lines) && lines.len() == 7 && forall|i: int|
                0 <= i < 7 ==> #[trigger] lines[i]@ == status_lines(locale, facts)[i],
            r@.state == top_state(),
            !r@.older_history_available,
            r@.previous is None,
            r@.previous_content_width == 0,
    {
        let state = if facts.status.is_empty() {
            owned(locale.ready_label())
        } else {
            locale.status(facts.status)
        };
        let l0 = field(locale.thread_label(), value_text(locale, facts.thread_id).as_str());
        let l1 = field(locale.model_label(), value_text(locale, facts.model).as_str());
        let l2 = field(locale.provider_label(), value_text(locale, facts.provider).as_str());
        let l3 = field(locale.effort_label(), value_text(locale, facts.effort).as_str());
        let l4 = field(locale.permissions_label(), value_text(locale, facts.permissions).as_str());
        let l5 = field(locale.cwd_label(), facts.cwd);
        let l6 = field(locale.state_label(), state.as_str());
        let ghost expected = status_lines(locale, facts);
        assert(l0@ == expected[0] && l1@ == expected[1] && l2@ == expected[2] && l3@ == expected[3]);
        assert(l4@ == expected[4] && l5@ == expected[5] && l6@ == expected[6]);
        let lines: Vec<String> = vec![l0, l1, l2, l3, l4, l5, l6];
        PagerOverlay::new(owned(locale.status_title()), lines)
    }

    /// A static pager over the given lines, at the top.
    pub fn new(title: String, lines: Vec<String>) -> (r: PagerOverlay)
        ensures
            r@.title == title@,
            r@.static_lines == Some(lines@),
            r@.state == top_state(),
            !r@.older_history_available,
            r@.previous is None,
            r@.previous_content_width == 0,
    {
        PagerOverlay {
            title,
            static_lines: Some(lines),
            state: ScrollState { scroll: 0, page_height: 1, max_scroll: 0, pinned_to_bottom: false },
            older_history_available: false,
            previous_lines: None,
            previous_content_width: 0,
        }
    }

    /// The transcript pager, following the tail.
    pub fn transcript(locale: Locale) -> (r: PagerOverlay)
        ensures
            r@.title == locale.transcript_title_text(),
            r@.static_lines is None,
            r@.state == tail_state(),
            !r@.older_history_available,
            r@.previous is None,
            r@.previous_content_width == 0,
    {
        PagerOverlay {
            title: owned(locale.transcript_title()),
            static_lines: None,
            state: ScrollState {
                scroll: usize::MAX,
                page_height: 1,
                max_scroll: 0,
                pinned_to_bottom: true,
            },
            older_history_available: false,
            previous_lines: None,
            previous_content_width: 0,
        }
    }

    /// The scroll state.
    pub fn scroll_state(&self) -> (r: ScrollState)
        ensures
            r == self@.state,
    {
        self.state
    }

    /// The title.
    pub fn title(&self) -> (r: &str)
        ensures
            r@ == self@.title,
    {
        self.title.as_str()
    }

    /// The lines of a static pager.
    pub fn static_lines(&self) -> (r: Option<&Vec<String>>)
        ensures
            match r {
                Some(v) => self@.static_lines == Some(v@),
                None => self@.static_lines is None,
            },
    {
        match &self.static_lines {
            Some(v) => Some(v),
            None => None,
        }
    }

    /// Whether older history can still be loaded.
    pub fn older_history_available(&self) -> (r: bool)
        ensures
            r == self@.older_history_available,
    {
        self.older_history_available
    }

    /// Whether this is the transcript pager.
    pub fn is_transcript(&self) -> (r: bool)
        ensures
            r == (self@.static_lines is None),
    {
        self.static_lines.is_none()
    }

    /// Records whether older history can still be loaded.
    pub fn set_older_history_available(&mut self, available: bool)
        ensures
            final(self)@ == (PagerView { older_history_available: available, ..old(self)@ }),
    {
        self.older_history_available = available;
    }

    /// Keeps the transcript at its beginning after older pages were loaded:
    /// unpinned at row 0, with the remembered layout dropped. A static pager
    /// is left as it is.
    pub fn reset_transcript_anchor_at_top(&mut self)
        ensures
            old(self)@.static_lines is Some ==> final(self)@ == old(self)@,
            old(self)@.static_lines is None ==> final(self)@ == (PagerView {
                state: ScrollState { scroll: 0, pinned_to_bottom: false, ..old(self)@.state },
                previous: None,
                previous_content_width: 0,
                ..old(self)@
            }),
    {
        if self.static_lines.is_some() {
            return;
        }
        self.state.pinned_to_bottom = false;
        self.state.scroll = 0;
        self.previous_lines = None;
        self.previous_content_width = 0;
    }

    /// Handles a key event (`key_step`).
    pub fn handle_event(&mut self, event: PagerKeyEvent) -> (r: PagerAction)
        ensures
            (final(self)@.state, r) == key_step(
                old(self)@.static_lines is None,
                old(self)@.older_history_available,
                old(self)@.state,
                event,
            ),
            final(self)@ == (PagerView { state: final(self)@.state, ..old(self)@ }),
    {
        let transcript = self.static_lines.is_none();
        let (next, action) = key_state(transcript, self.older_history_available, self.state, event);
        self.state = next;
        action
    }

    /// Lays the content out: `total_height` wrapped rows in an area
    /// `content_height` rows tall (`layout_step`).
    pub fn apply_layout(&mut self, total_height: usize, content_height: usize)
        ensures
            final(self)@ == (PagerView {
                state: layout_step(old(self)@.state, total_height as nat, content_height as nat),
                ..old(self)@
            }),
    {
        self.state = layout_state(self.state, total_height, content_height);
    }

    /// Remembers the transcript just laid out (line keys and their wrapped
    /// heights at `width`); a static pager remembers nothing.
    pub fn remember_transcript(&mut self, lines: Vec<String>, heights: Vec<usize>, width: u16)
        requires
            lines.len() == heights.len(),
            pager_wf(old(self)@),
        ensures
            pager_wf(final(self)@),
            old(self)@.static_lines is Some ==> final(self)@ == old(self)@,
            old(self)@.static_lines is None ==> final(self)@ == (PagerView {
                previous: Some((lines@, heights@)),
                previous_content_width: width,
                ..old(self)@
            }),
    {
        if self.static_lines.is_none() {
            self.previous_lines = Some((lines, heights));
            self.previous_content_width = width;
        }
    }
}

/// The scroll of a pager after remapping its anchor onto `lines` (with
/// wrapped heights `heights`) at `width`: unchanged while pinned to the
/// bottom, with nothing remembered, with either transcript empty, or with a
/// zero width; otherwise `remapped_scroll`.
pub open spec fn remap_result(v: PagerView, lines: Seq<String>, heights: Seq<usize>, width: u16) -> int {
    let scroll = v.state.scroll as int;
    if v.state.pinned_to_bottom {
        scroll
    } else {
        match v.previous {
            None => scroll,
            Some(p) => if p.0.len() == 0 || lines.len() == 0 || v.previous_content_width == 0
                || width == 0 {
                scroll
            } else {
                remapped_scroll(p.0, p.1, lines, heights, scroll)
            },
        }
    }
}

proof fn lemma_common_prefix(a: Seq<String>, b: Seq<String>, n: int, k: int)
    requires
        0 <= k <= n,
        k <= a.len(),
        k <= b.len(),
        forall|j: int| 0 <= j < k ==> #[trigger] a[j]@ == b[j]@,
        k < n ==> (k >= a.len() || k >= b.len() || a[k]@ != b[k]@),
    ensures
        common_prefix(a, b, n) == k,
    decreases n,
{
    if n > 0 {
        if n - 1 >= k {
            lemma_common_prefix(a, b, n - 1, k);
        } else {
            lemma_common_prefix(a, b, n - 1, n - 1);
        }
    }
}

proof fn lemma_common_suffix(a: Seq<String>, b: Seq<String>, n: int, k: int)
    requires
        0 <= k <= n,
        k <= a.len(),
        k <= b.len(),
        forall|j: int| 0 <= j < k ==> #[trigger] a[a.len() - 1 - j]@ == b[b.len() - 1 - j]@,
        k < n ==> (k >= a.len() || k >= b.len() || a[a.len() - 1 - k]@ != b[b.len() - 1 - k]@),
    ensures
        common_suffix(a, b, n) == k,
    decreases n,
{
    if n > 0 {
        if n - 1 >= k {
            lemma_common_suffix(a, b, n - 1, k);
        } else {
            lemma_common_suffix(a, b, n - 1, n - 1);
            assert(a[a.len() - 1 - (n - 1)]@ == b[b.len() - 1 - (n - 1)]@);
        }
    }
}

fn prefix_len(a: &[String], b: &[String]) -> (r: usize)
    ensures
        r == common_prefix(a@, b@, a@.len() as int),
        r <= a@.len(),
{
    let mut k: usize = 0;
    while k < a.len() && k < b.len() && str_eq(a[k].as_str(), b[k].as_str())
        invariant
            k <= a.len(),
            k <= b.len(),
            forall|j: int| 0 <= j < k ==> #[trigger] a@[j]@ == b@[j]@,
        decreases a.len() - k,
    {
        k = k + 1;
    }
    proof {
        lemma_common_prefix(a@, b@, a@.len() as int, k as int);
    }
    k
}

fn suffix_len(a: &[String], b: &[String]) -> (r: usize)
    ensures
        r == common_suffix(a@, b@, a@.len() as int),
{
    let mut k: usize = 0;
    while k < a.len() && k < b.len() && str_eq(
        a[a.len() - 1 - k].as_str(),
        b[b.len() - 1 - k].as_str(),
    )
        invariant
            k <= a.len(),
            k <= b.len(),
            forall|j: int| 0 <= j < k ==> #[trigger] a@[a@.len() - 1 - j]@ == b@[b@.len() - 1 - j]@,
        decreases a.len() - k,
    {
        k = k + 1;
    }
    proof {
        lemma_common_suffix(a@, b@, a@.len() as int, k as int);
    }
    k
}

/// Whether `cur[off..off + prev.len()]` holds the keys of `prev`.
fn same_keys_at(cur: &[String], off: usize, prev: &[String]) -> (r: bool)
    requires
        off + prev.len() <= cur.len(),
    ensures
        r == same_keys(cur@.subrange(off as int, off + prev.len()), prev@),
{
    let mut i: usize = 0;
    while i < prev.len()
        invariant
            off + prev.len() <= cur.len(),
            i <= prev.len(),
            forall|j: int| 0 <= j < i ==> #[trigger] cur@[off + j]@ == prev@[j]@,
        decreases prev.len() - i,
    {
        if !str_eq(cur[off + i].as_str(), prev[i].as_str()) {
            proof {
                assert(cur@.subrange(off as int, off + prev.len())[i as int] == cur@[off + i]);
            }
            return false;
        }
        i = i + 1;
    }
    proof {
        let sub = cur@.subrange(off as int, off + prev.len());
        assert forall|j: int| 0 <= j < sub.len() implies #[trigger] sub[j]@ == prev@[j]@ by {
            assert(sub[j] == cur@[off + j]);
        }
    }
    true
}

/// The line holding row `scroll` and the row within it (`anchor_of`).
fn find_anchor(starts: &Vec<usize>, scroll: usize) -> (r: (usize, usize))
    ensures
        (r.0 as int, r.1 as int) == anchor_of(starts@, scroll as int, starts@.len() as int),
        starts@.len() > 0 ==> r.0 < starts@.len(),
{
    let n = starts.len();
    let mut i: usize = n;
    while i > 0
        invariant
            i <= n == starts@.len(),
            anchor_of(starts@, scroll as int, n as int) == anchor_of(starts@, scroll as int, i as int),
        decreases i,
    {
        if starts[i - 1] <= scroll {
            return (i - 1, scroll - starts[i - 1]);
        }
        i = i - 1;
    }
    (0, scroll)
}

proof fn lemma_anchor_bounds(starts: Seq<usize>, scroll: int, n: int)
    requires
        0 <= scroll,
        n <= starts.len(),
    ensures
        0 <= anchor_of(starts, scroll, n).1 <= scroll,
    decreases n,
{
    if n > 0 && starts[n - 1] > scroll {
        lemma_anchor_bounds(starts, scroll, n - 1);
    }
}

impl PagerOverlay {
    /// Keeps the same logical transcript row in view when the transcript
    /// changes (history prepended, lines appended, a line updated in place)
    /// or the width changes (`remap_result`).
    pub fn remap_transcript_anchor(&mut self, lines: &[String], heights: &[usize], width: u16)
        requires
            lines.len() == heights.len(),
            pager_wf(old(self)@),
        ensures
            final(self)@ == (PagerView {
                state: ScrollState {
                    scroll: remap_result(old(self)@, lines@, heights@, width) as usize,
                    ..old(self)@.state
                },
                ..old(self)@
            }),
            0 <= remap_result(old(self)@, lines@, heights@, width) <= usize::MAX,
    {
        if self.state.pinned_to_bottom {
            return;
        }
        let (prev, prev_heights) = match &self.previous_lines {
            Some(p) => (&p.0, &p.1),
            None => {
                return;
            },
        };
        if prev.len() == 0 || lines.len() == 0 {
            return;
        }
        if self.previous_content_width == 0 || width == 0 {
            return;
        }
        let old_starts = wrapped_line_starts(prev_heights.as_slice());
        let old_scroll = self.state.scroll;
        let (old_line, offset) = find_anchor(&old_starts, old_scroll);
        proof {
            lemma_anchor_bounds(old_starts@, old_scroll as int, old_starts@.len() as int);
        }
        let p = prefix_len(prev.as_slice(), lines);
        let raw = suffix_len(prev.as_slice(), lines);
        let s = if raw <= prev.len() - p {
            raw
        } else {
            prev.len() - p
        };
        let ghost prev_s = prev@;
        let ghost cur_s = lines@;
        let mapped: usize = if lines.len() == prev.len() && (p > 0 || s > 0 || prev.len() == 1) {
            old_line
        } else if lines.len() >= prev.len() && same_keys_at(
            lines,
            lines.len() - prev.len(),
            prev.as_slice(),
        ) {
            proof {
                assert(cur_s.skip(cur_s.len() - prev_s.len()) =~= cur_s.subrange(
                    cur_s.len() - prev_s.len(),
                    cur_s.len() as int,
                ));
            }
            old_line + (lines.len() - prev.len())
        } else if lines.len() >= prev.len() && same_keys_at(lines, 0, prev.as_slice()) {
            proof {
                assert(cur_s.take(prev_s.len() as int) =~= cur_s.subrange(0, prev_s.len() as int));
                assert(!same_keys(cur_s.skip(cur_s.len() - prev_s.len()), prev_s)) by {
                    assert(cur_s.skip(cur_s.len() - prev_s.len()) =~= cur_s.subrange(
                        cur_s.len() - prev_s.len(),
                        cur_s.len() as int,
                    ));
                }
            }
            old_line
        } else {
            proof {
                if cur_s.len() >= prev_s.len() {
                    assert(cur_s.take(prev_s.len() as int) =~= cur_s.subrange(
                        0,
                        prev_s.len() as int,
                    ));
                    assert(cur_s.skip(cur_s.len() - prev_s.len()) =~= cur_s.subrange(
                        cur_s.len() - prev_s.len(),
                        cur_s.len() as int,
                    ));
                }
            }
            return;
        };
        if mapped >= heights.len() {
            return;
        }
        let starts = wrapped_line_starts(heights);
        let height = heights[mapped];
        let limit = height.saturating_sub(1);
        let within = if offset <= limit {
            offset
        } else {
            limit
        };
        self.state.scroll = starts[mapped].saturating_add(within);
    }
}

/// A key never moves the view past the bottom: a key that moves leaves the
/// scroll within `0..=max_scroll`, any other leaves the state as it was;
/// the page height and the bound are never changed by a key. End pins the
/// view to the bottom and Home returns it to the top.
pub proof fn lemma_key_keeps_bounds(
    transcript: bool,
    older_available: bool,
    s: ScrollState,
    k: PagerKeyEvent,
)
    ensures
        ({
            let (n, _a) = key_step(transcript, older_available, s, k);
            &&& n.scroll <= s.max_scroll || n == s
            &&& n.max_scroll == s.max_scroll
            &&& n.page_height == s.page_height
            &&& (k.press && k.code == PagerKey::End) ==> n.scroll == s.max_scroll
                && n.pinned_to_bottom
            &&& (k.press && k.code == PagerKey::Home) ==> n.scroll == 0 && !n.pinned_to_bottom
        }),
{
}

/// Only the transcript pager asks for older history, and only when it has
/// some and the view is at the top.
pub proof fn lemma_only_transcript_loads_older(
    transcript: bool,
    older_available: bool,
    s: ScrollState,
    k: PagerKeyEvent,
)
    ensures
        ({
            let (n, a) = key_step(transcript, older_available, s, k);
            a == PagerAction::LoadOlderHistory ==> transcript && older_available && n.scroll == 0
        }),
{
}

/// In a transcript with older history to load, a key that moves up (Up,
/// Page Up or Home) asks for older history exactly when it leaves the view
/// at the top; Up moves one row up.
pub proof fn lemma_moving_up_to_the_top_loads_older(s: ScrollState, k: PagerKeyEvent)
    requires
        k.press,
        k.code == PagerKey::Up || k.code == PagerKey::PageUp || k.code == PagerKey::Home,
        s.scroll <= s.max_scroll,
    ensures
        ({
            let (n, a) = key_step(true, true, s, k);
            &&& (a == PagerAction::LoadOlderHistory) == (n.scroll == 0)
            &&& (a == PagerAction::LoadOlderHistory || a == PagerAction::Consumed)
            &&& n.scroll <= s.scroll
            &&& k.code == PagerKey::Up ==> n.scroll == if s.scroll > 0 {
                s.scroll - 1
            } else {
                0
            }
        }),
{
}

/// Down moves one row down and Page Down a page down, neither past the
/// bottom, and either one pins the view to the bottom exactly when it
/// reaches it; End goes to the bottom and pins it; Home goes to the top.
pub proof fn lemma_moves_down_and_to_the_ends(transcript: bool, older: bool, s: ScrollState, k: PagerKeyEvent)
    requires
        k.press,
        s.scroll <= s.max_scroll,
    ensures
        ({
            let (n, a) = key_step(transcript, older, s, k);
            let page: int = if s.page_height >= 1 {
                s.page_height as int
            } else {
                1
            };
            &&& k.code == PagerKey::Down ==> n.scroll == if s.scroll + 1 <= s.max_scroll {
                s.scroll + 1
            } else {
                s.max_scroll as int
            } && n.pinned_to_bottom == (n.scroll == s.max_scroll) && a == PagerAction::Consumed
            &&& k.code == PagerKey::PageDown ==> n.scroll == if s.scroll + page <= s.max_scroll {
                s.scroll + page
            } else {
                s.max_scroll as int
            } && n.pinned_to_bottom == (n.scroll == s.max_scroll) && a == PagerAction::Consumed
            &&& k.code == PagerKey::End ==> n.scroll == s.max_scroll && n.pinned_to_bottom && a
                == PagerAction::Consumed
            &&& k.code == PagerKey::Home ==> n.scroll == 0 && !n.pinned_to_bottom
        }),
{
}

/// Escape and `q` close any pager and Control-T closes the transcript
/// pager, leaving the view as it was; a released key changes nothing.
pub proof fn lemma_closing_keys(transcript: bool, older: bool, s: ScrollState, k: PagerKeyEvent)
    ensures
        ({
            let (n, a) = key_step(transcript, older, s, k);
            &&& !k.press ==> n == s && a == PagerAction::Consumed
            &&& k.press && (k.code == PagerKey::Esc || k.code == PagerKey::Char('q')) ==> n == s && a
                == PagerAction::Close
            &&& k.press && transcript && k.control && k.code == PagerKey::Char('t') ==> n == s && a
                == PagerAction::Close
        }),
{
}

/// After a layout the view is within the new bounds: the bound is the
/// content height below the total, the scroll does not pass it, a pinned
/// view sits at the bottom, and a page is at least one row.
pub proof fn lemma_layout_in_bounds(s: ScrollState, total_height: nat, content_height: nat)
    requires
        total_height <= usize::MAX,
        content_height <= usize::MAX,
    ensures
        ({
            let n = layout_step(s, total_height, content_height);
            &&& n.max_scroll == sat_sub(total_height as int, content_height as int)
            &&& n.scroll <= n.max_scroll
            &&& s.pinned_to_bottom ==> n.scroll == n.max_scroll
            &&& n.page_height >= 1
        }),
{
}

/// The rows the first `n` lines take, without saturation.
pub open spec fn rows_sum(h: Seq<usize>, n: int) -> int
    decreases n,
{
    if n <= 0 {
        0
    } else {
        rows_sum(h, n - 1) + rows_of(h[n - 1])
    }
}

proof fn lemma_rows_sum_mono(h: Seq<usize>, i: int, j: int)
    requires
        0 <= i <= j <= h.len(),
    ensures
        rows_sum(h, i) + (j - i) <= rows_sum(h, j),
    decreases j,
{
    if j > i {
        lemma_rows_sum_mono(h, i, j - 1);
    }
}

proof fn lemma_line_end_exact(h: Seq<usize>, n: int)
    requires
        0 <= n <= h.len(),
        rows_sum(h, n) <= usize::MAX,
    ensures
        line_end(h, n) == rows_sum(h, n),
    decreases n,
{
    if n > 0 {
        lemma_rows_sum_mono(h, n - 1, n);
        lemma_line_end_exact(h, n - 1);
    }
}

proof fn lemma_starts_exact(h: Seq<usize>)
    requires
        rows_sum(h, h.len() as int) <= usize::MAX,
    ensures
        forall|k: int| 0 <= k < h.len() ==> #[trigger] line_starts(h)[k] == rows_sum(h, k),
{
    assert forall|k: int| 0 <= k < h.len() implies #[trigger] line_starts(h)[k] == rows_sum(h, k) by {
        lemma_rows_sum_mono(h, k, h.len() as int);
        lemma_rows_sum_mono(h, 0, k);
        lemma_line_end_exact(h, k);
    }
}

proof fn lemma_line_of(h: Seq<usize>, scroll: int, n: int) -> (i: int)
    requires
        0 < n <= h.len(),
        0 <= scroll < rows_sum(h, n),
    ensures
        0 <= i < n,
        rows_sum(h, i) <= scroll < rows_sum(h, i + 1),
    decreases n,
{
    if scroll >= rows_sum(h, n - 1) {
        n - 1
    } else {
        lemma_line_of(h, scroll, n - 1)
    }
}

proof fn lemma_anchor_at(h: Seq<usize>, scroll: int, i: int, n: int)
    requires
        0 <= i < n <= h.len(),
        rows_sum(h, h.len() as int) <= usize::MAX,
        rows_sum(h, i) <= scroll < rows_sum(h, i + 1),
    ensures
        anchor_of(line_starts(h), scroll, n) == (i, scroll - rows_sum(h, i)),
    decreases n,
{
    lemma_starts_exact(h);
    if n > i + 1 {
        lemma_rows_sum_mono(h, i + 1, n - 1);
        lemma_anchor_at(h, scroll, i, n - 1);
    }
}

proof fn lemma_rows_sum_prefix(a: Seq<usize>, b: Seq<usize>, j: int)
    requires
        0 <= j <= a.len(),
    ensures
        rows_sum(a + b, j) == rows_sum(a, j),
    decreases j,
{
    if j > 0 {
        lemma_rows_sum_prefix(a, b, j - 1);
    }
}

proof fn lemma_rows_sum_concat(a: Seq<usize>, b: Seq<usize>, k: int)
    requires
        0 <= k <= b.len(),
    ensures
        rows_sum(a + b, a.len() + k) == rows_sum(a, a.len() as int) + rows_sum(b, k),
    decreases k,
{
    if k == 0 {
        lemma_rows_sum_prefix(a, b, a.len() as int);
    } else {
        lemma_rows_sum_concat(a, b, k - 1);
        assert((a + b)[a.len() + k - 1] == b[k - 1]);
    }
}

proof fn lemma_prefix_all(a: Seq<String>)
    ensures
        common_prefix(a, a, a.len() as int) == a.len(),
{
    lemma_common_prefix(a, a, a.len() as int, a.len() as int);
}

/// Laying the same transcript out again at the same width keeps the view
/// on the same row, for any row within the transcript.
pub proof fn lemma_remap_unchanged(keys: Seq<String>, heights: Seq<usize>, scroll: int)
    requires
        keys.len() == heights.len(),
        keys.len() > 0,
        rows_sum(heights, heights.len() as int) <= usize::MAX,
        0 <= scroll < rows_sum(heights, heights.len() as int),
    ensures
        remapped_scroll(keys, heights, keys, heights, scroll) == scroll,
{
    let n = heights.len() as int;
    let i = lemma_line_of(heights, scroll, n);
    lemma_anchor_at(heights, scroll, i, n);
    lemma_starts_exact(heights);
    lemma_prefix_all(keys);
    lemma_rows_sum_mono(heights, i + 1, n);
}

/// When older history is prepended to the transcript, the view moves down
/// by exactly the rows the prepended lines take, so the same row stays in
/// view.
pub proof fn lemma_remap_prepended(
    prev: Seq<String>,
    prev_heights: Seq<usize>,
    extra: Seq<String>,
    extra_heights: Seq<usize>,
    scroll: int,
)
    requires
        prev.len() == prev_heights.len(),
        prev.len() > 0,
        extra.len() == extra_heights.len(),
        extra.len() > 0,
        rows_sum(extra_heights + prev_heights, (extra.len() + prev.len()) as int) <= usize::MAX,
        0 <= scroll < rows_sum(prev_heights, prev.len() as int),
    ensures
        remapped_scroll(prev, prev_heights, extra + prev, extra_heights + prev_heights, scroll)
            == scroll + rows_sum(extra_heights, extra.len() as int),
{
    let n = prev.len() as int;
    let e = extra.len() as int;
    let cur = extra + prev;
    let ch = extra_heights + prev_heights;
    lemma_rows_sum_concat(extra_heights, prev_heights, n);
    lemma_rows_sum_mono(extra_heights, 0, e);
    let i = lemma_line_of(prev_heights, scroll, n);
    lemma_anchor_at(prev_heights, scroll, i, n);
    lemma_starts_exact(prev_heights);
    lemma_starts_exact(ch);
    lemma_rows_sum_concat(extra_heights, prev_heights, i);
    lemma_rows_sum_concat(extra_heights, prev_heights, i + 1);
    lemma_rows_sum_mono(prev_heights, i + 1, n);
    assert(cur.skip(cur.len() - prev.len()) =~= prev);
    assert(same_keys(cur.skip(cur.len() - prev.len()), prev));
    assert(ch[e + i] == prev_heights[i]);
}

/// When older history is prepended and the lines wrap anew, a view on row
/// `offset` of a line stays on that row of the same line (now after the
/// prepended lines), or on its last row when the line is now shorter.
pub proof fn lemma_remap_prepended_reflow(
    prev: Seq<String>,
    prev_heights: Seq<usize>,
    extra: Seq<String>,
    extra_heights: Seq<usize>,
    new_heights: Seq<usize>,
    line: int,
    offset: int,
)
    requires
        prev.len() == prev_heights.len(),
        prev.len() == new_heights.len(),
        extra.len() == extra_heights.len(),
        extra.len() > 0,
        0 <= line < prev.len(),
        0 <= offset < prev_heights[line],
        rows_sum(prev_heights, prev.len() as int) <= usize::MAX,
        rows_sum(extra_heights + new_heights, (extra.len() + prev.len()) as int) <= usize::MAX,
    ensures
        remapped_scroll(
            prev,
            prev_heights,
            extra + prev,
            extra_heights + new_heights,
            rows_sum(prev_heights, line) + offset,
        ) == rows_sum(extra_heights + new_heights, extra.len() + line) + if offset < new_heights[line] {
            offset
        } else {
            sat_sub(new_heights[line] as int, 1)
        },
{
    let n = prev.len() as int;
    let e = extra.len() as int;
    let cur = extra + prev;
    let ch = extra_heights + new_heights;
    lemma_rows_sum_mono(prev_heights, line, line + 1);
    lemma_rows_sum_mono(prev_heights, line + 1, n);
    lemma_anchor_at(prev_heights, rows_sum(prev_heights, line) + offset, line, n);
    lemma_starts_exact(prev_heights);
    lemma_starts_exact(ch);
    lemma_rows_sum_mono(ch, e + line, e + line + 1);
    lemma_rows_sum_mono(ch, e + line + 1, e + n);
    assert(cur.skip(cur.len() - prev.len()) =~= prev);
    assert(same_keys(cur.skip(cur.len() - prev.len()), prev));
    assert(ch[e + line] == new_heights[line]);
}

/// When the width changes and the lines wrap anew, a view on row `offset`
/// of a line stays on that row of the same line, or on the line's last row
/// when the line is now shorter.
pub proof fn lemma_remap_reflow(
    keys: Seq<String>,
    old_heights: Seq<usize>,
    new_heights: Seq<usize>,
    line: int,
    offset: int,
)
    requires
        keys.len() == old_heights.len(),
        keys.len() == new_heights.len(),
        0 <= line < keys.len(),
        0 <= offset < old_heights[line],
        rows_sum(old_heights, old_heights.len() as int) <= usize::MAX,
        rows_sum(new_heights, new_heights.len() as int) <= usize::MAX,
    ensures
        remapped_scroll(keys, old_heights, keys, new_heights, rows_sum(old_heights, line) + offset)
            == rows_sum(new_heights, line) + if offset < new_heights[line] {
            offset
        } else {
            sat_sub(new_heights[line] as int, 1)
        },
{
    let n = keys.len() as int;
    lemma_rows_sum_mono(old_heights, line, line + 1);
    lemma_rows_sum_mono(old_heights, line + 1, n);
    lemma_anchor_at(old_heights, rows_sum(old_heights, line) + offset, line, n);
    lemma_starts_exact(new_heights);
    lemma_prefix_all(keys);
    lemma_rows_sum_mono(new_heights, line, line + 1);
    lemma_rows_sum_mono(new_heights, line + 1, n);
}

/// The rows of a pager's area: a header row, the content, a separator
/// row (when the area is at least three rows tall) and a footer row (when
/// at least two), top to bottom.
#[derive(Clone, Copy, Debug, PartialEq, Eq, Structural)]
pub struct PagerRows {
    pub header_y: u16,
    pub content_y: u16,
    pub content_height: u16,
    pub separator_y: u16,
    pub separator_height: u16,
    pub footer_y: u16,
    pub footer_height: u16,
}

/// `a + b`, stopping at `u16::MAX`.
pub open spec fn sat_add16(a: int, b: int) -> int {
    if a + b > u16::MAX { u16::MAX as int } else { a + b }
}

/// The rows of an area at row `y`, `width` columns by `height` rows; none
/// for an empty area.
pub open spec fn pager_rows_spec(y: u16, width: u16, height: u16) -> Option<PagerRows> {
    if width == 0 || height == 0 {
        None
    } else {
        let footer_height: int = if height >= 2 { 1 } else { 0 };
        let separator_height: int = if height >= 3 { 1 } else { 0 };
        let content_y = sat_add16(y as int, 1);
        let content_height = if height >= 1 + footer_height + separator_height {
            height - 1 - footer_height - separator_height
        } else {
            0
        };
        let separator_y = sat_add16(content_y, content_height);
        let footer_y = sat_add16(separator_y, separator_height);
        Some(PagerRows {
            header_y: y,
            content_y: content_y as u16,
            content_height: content_height as u16,
            separator_y: separator_y as u16,
            separator_height: separator_height as u16,
            footer_y: footer_y as u16,
            footer_height: footer_height as u16,
        })
    }
}

fn sat_add_u16(a: u16, b: u16) -> (r: u16)
    ensures
        r == sat_add16(a as int, b as int),
{
    if a as u32 + b as u32 > u16::MAX as u32 {
        u16::MAX
    } else {
        a + b
    }
}

/// The rows of the pager's area (`pager_rows_spec`).
pub fn pager_rows(y: u16, width: u16, height: u16) -> (r: Option<PagerRows>)
    ensures
        r == pager_rows_spec(y, width, height),
{
    if width == 0 || height == 0 {
        return None;
    }
    let footer_height: u16 = if height >= 2 { 1 } else { 0 };
    let separator_height: u16 = if height >= 3 { 1 } else { 0 };
    let content_y = sat_add_u16(y, 1);
    let content_height: u16 = if height >= 1 + footer_height + separator_height {
        height - 1 - footer_height - separator_height
    } else {
        0
    };
    let separator_y = sat_add_u16(content_y, content_height);
    let footer_y = sat_add_u16(separator_y, separator_height);
    Some(PagerRows {
        header_y: y,
        content_y,
        content_height,
        separator_y,
        separator_height,
        footer_y,
        footer_height,
    })
}

} // verus!
