//! Column-width allocation for Markdown tables shown in a terminal.
//!
//! Each column is measured ([`ColumnMetrics`]); the widths start at each
//! column's widest cell and, when the table does not fit, are shrunk one
//! cell at a time, token-heavy columns first, then narrative ones, then
//! compact ones, always taking from the column of that kind with the most
//! room above its floor.
use vstd::prelude::*;

use crate::text::{chars_of, next_token, owned, string_of, tokens};
use crate::width::{display_width, str_width};

verus! {

/// Gap between two columns.
pub const COLUMN_GAP: usize = 2;

/// Padding on each side of a cell.
pub const CELL_PADDING: usize = 1;

/// The narrowest column.
pub const MIN_COLUMN_WIDTH: usize = 3;

/// Below this width a token-heavy or narrative column is hard to read.
pub const MIN_SCANNABLE_EXPANSIVE_WIDTH: usize = 12;

/// What a column mostly holds.
#[derive(Clone, Copy, Debug, PartialEq, Eq, Structural)]
pub enum ColumnKind {
    /// Long unbreakable tokens (paths, URLs, hashes).
    TokenHeavy,
    /// Prose.
    Narrative,
    /// Short values.
    Compact,
}

/// The measurements of one column.
#[derive(Clone, Copy, Debug, PartialEq, Eq, Structural)]
pub struct ColumnMetrics {
    /// Display width of the widest cell.
    pub max_width: usize,
    /// Display width of the longest token of the header.
    pub header_token_width: usize,
    /// Display width of the longest token of the body cells.
    pub body_token_width: usize,
    pub kind: ColumnKind,
}

/// Sum of a sequence of widths.
pub open spec fn total(s: Seq<usize>) -> int
    decreases s.len(),
{
    if s.len() == 0 {
        0
    } else {
        total(s.drop_last()) + s.last()
    }
}

pub open spec fn max_nat(a: int, b: int) -> int {
    if a >= b {
        a
    } else {
        b
    }
}

pub open spec fn min_nat(a: int, b: int) -> int {
    if a <= b {
        a
    } else {
        b
    }
}

/// The width a column would like: its widest cell, but at least the minimum.
pub open spec fn natural_width(m: ColumnMetrics) -> usize {
    max_nat(m.max_width as int, MIN_COLUMN_WIDTH as int) as usize
}

/// The width below which a column is not shrunk while wider ones remain:
/// 16 for token-heavy and narrative columns; for a compact column its longest
/// header token, or its longest body token up to 16 if that is more; never
/// below the minimum nor above the natural width.
pub open spec fn column_floor(m: ColumnMetrics) -> usize {
    let target: int = match m.kind {
        ColumnKind::Narrative | ColumnKind::TokenHeavy => 16,
        ColumnKind::Compact => max_nat(
            m.header_token_width as int,
            min_nat(m.body_token_width as int, 16),
        ),
    };
    min_nat(max_nat(target, MIN_COLUMN_WIDTH as int), natural_width(m) as int) as usize
}

/// The floor of a column (`column_floor`).
pub fn preferred_column_floor(metrics: &ColumnMetrics) -> (r: usize)
    ensures
        r == column_floor(*metrics),
{
    let target: usize = match metrics.kind {
        ColumnKind::Narrative | ColumnKind::TokenHeavy => 16,
        ColumnKind::Compact => {
            let body = if metrics.body_token_width < 16 {
                metrics.body_token_width
            } else {
                16
            };
            if metrics.header_token_width >= body {
                metrics.header_token_width
            } else {
                body
            }
        },
    };
    let target = if target >= MIN_COLUMN_WIDTH {
        target
    } else {
        MIN_COLUMN_WIDTH
    };
    let natural = if metrics.max_width >= MIN_COLUMN_WIDTH {
        metrics.max_width
    } else {
        MIN_COLUMN_WIDTH
    };
    if target <= natural {
        target
    } else {
        natural
    }
}

/// Whether column `i` may still give up a cell in the pass for `kind`.
pub open spec fn can_shrink(
    w: Seq<usize>,
    f: Seq<usize>,
    m: Seq<ColumnMetrics>,
    kind: ColumnKind,
    i: int,
) -> bool {
    m[i].kind == kind && w[i] > f[i]
}

/// The column among the first `n` that gives up the next cell in the pass for
/// `kind`: the one with the most room above its floor, the last of equals.
pub open spec fn widest_above_floor(
    w: Seq<usize>,
    f: Seq<usize>,
    m: Seq<ColumnMetrics>,
    kind: ColumnKind,
    n: int,
) -> Option<int>
    decreases n,
{
    if n <= 0 {
        None
    } else {
        let b = widest_above_floor(w, f, m, kind, n - 1);
        if can_shrink(w, f, m, kind, n - 1) && (b is None || w[n - 1] - f[n - 1] >= w[b.unwrap()]
            - f[b.unwrap()]) {
            Some(n - 1)
        } else {
            b
        }
    }
}

/// The pass for `kind`: take cells one at a time from the column chosen by
/// `widest_above_floor` until `amount` cells are taken or no column of that
/// kind is above its floor. Gives the widths and the cells still to take.
pub open spec fn shrink_pass(
    w: Seq<usize>,
    f: Seq<usize>,
    m: Seq<ColumnMetrics>,
    kind: ColumnKind,
    amount: nat,
) -> (Seq<usize>, nat)
    decreases amount,
{
    if amount == 0 {
        (w, 0)
    } else {
        match widest_above_floor(w, f, m, kind, w.len() as int) {
            None => (w, amount),
            Some(i) => shrink_pass(w.update(i, (w[i] - 1) as usize), f, m, kind, (amount - 1) as nat),
        }
    }
}

/// The three passes in order: token-heavy, narrative, compact.
pub open spec fn shrink_all(
    w: Seq<usize>,
    f: Seq<usize>,
    m: Seq<ColumnMetrics>,
    amount: nat,
) -> (Seq<usize>, nat) {
    let (w1, a1) = shrink_pass(w, f, m, ColumnKind::TokenHeavy, amount);
    if a1 == 0 {
        (w1, 0)
    } else {
        let (w2, a2) = shrink_pass(w1, f, m, ColumnKind::Narrative, a1);
        if a2 == 0 {
            (w2, 0)
        } else {
            shrink_pass(w2, f, m, ColumnKind::Compact, a2)
        }
    }
}

fn widest_column_above_floor(
    widths: &Vec<usize>,
    floors: &[usize],
    metrics: &[ColumnMetrics],
    kind: ColumnKind,
) -> (r: Option<usize>)
    requires
        widths.len() == floors.len(),
        widths.len() == metrics.len(),
    ensures
        match r {
            Some(i) => widest_above_floor(widths@, floors@, metrics@, kind, widths.len() as int)
                == Some(i as int) && i < widths.len(),
            None => widest_above_floor(widths@, floors@, metrics@, kind, widths.len() as int) is None,
        },
{
    let mut best: Option<usize> = None;
    let mut i: usize = 0;
    while i < widths.len()
        invariant
            i <= widths.len(),
            widths.len() == floors.len(),
            widths.len() == metrics.len(),
            match best {
                Some(b) => widest_above_floor(widths@, floors@, metrics@, kind, i as int) == Some(
                    b as int,
                ) && b < i,
                None => widest_above_floor(widths@, floors@, metrics@, kind, i as int) is None,
            },
            best matches Some(b) ==> widths[b as int] > floors[b as int],
        decreases widths.len() - i,
    {
        if metrics[i].kind == kind && widths[i] > floors[i] {
            match best {
                None => {
                    best = Some(i);
                },
                Some(b) => {
                    if widths[i] - floors[i] >= widths[b] - floors[b] {
                        best = Some(i);
                    }
                },
            }
        }
        i = i + 1;
    }
    best
}

/// The column `widest_above_floor` picks can shrink and has the most room
/// above its floor among the columns that can.
pub proof fn lemma_widest_above_floor(
    w: Seq<usize>,
    f: Seq<usize>,
    m: Seq<ColumnMetrics>,
    kind: ColumnKind,
    n: int,
)
    requires
        0 <= n <= w.len(),
        w.len() == f.len(),
        w.len() == m.len(),
    ensures
        match widest_above_floor(w, f, m, kind, n) {
            Some(i) => {
                &&& 0 <= i < n
                &&& can_shrink(w, f, m, kind, i)
                &&& forall|j: int|
                    0 <= j < n && can_shrink(w, f, m, kind, j) ==> w[j] - f[j] <= w[i] - f[i]
            },
            None => forall|j: int| 0 <= j < n ==> !can_shrink(w, f, m, kind, j),
        },
    decreases n,
{
    if n > 0 {
        lemma_widest_above_floor(w, f, m, kind, n - 1);
    }
}

fn shrink_kind(
    widths: &mut Vec<usize>,
    floors: &[usize],
    metrics: &[ColumnMetrics],
    kind: ColumnKind,
    amount: usize,
) -> (left: usize)
    requires
        old(widths).len() == floors.len(),
        old(widths).len() == metrics.len(),
    ensures
        final(widths).len() == old(widths).len(),
        (final(widths)@, left as nat) == shrink_pass(
            old(widths)@,
            floors@,
            metrics@,
            kind,
            amount as nat,
        ),
{
    let ghost target = shrink_pass(widths@, floors@, metrics@, kind, amount as nat);
    let mut amount = amount;
    while amount > 0
        invariant
            widths.len() == floors.len(),
            widths.len() == metrics.len(),
            shrink_pass(widths@, floors@, metrics@, kind, amount as nat) == target,
        ensures
            (widths@, amount as nat) == target,
        decreases amount,
    {
        proof {
            lemma_widest_above_floor(widths@, floors@, metrics@, kind, widths.len() as int);
        }
        match widest_column_above_floor(widths, floors, metrics, kind) {
            None => {
                break;
            },
            Some(index) => {
                let v = widths[index] - 1;
                widths.set(index, v);
                amount = amount - 1;
            },
        }
    }
    amount
}

/// Takes up to `amount` cells from the columns, pass by pass (token-heavy,
/// narrative, compact), never taking a column below its floor. Gives the
/// number of cells that could not be taken.
pub fn shrink_columns(
    widths: &mut Vec<usize>,
    floors: &[usize],
    metrics: &[ColumnMetrics],
    amount: usize,
) -> (left: usize)
    requires
        old(widths).len() == floors.len(),
        old(widths).len() == metrics.len(),
    ensures
        final(widths).len() == old(widths).len(),
        (final(widths)@, left as nat) == shrink_all(old(widths)@, floors@, metrics@, amount as nat),
{
    let a1 = shrink_kind(widths, floors, metrics, ColumnKind::TokenHeavy, amount);
    if a1 == 0 {
        return 0;
    }
    let a2 = shrink_kind(widths, floors, metrics, ColumnKind::Narrative, a1);
    if a2 == 0 {
        return 0;
    }
    shrink_kind(widths, floors, metrics, ColumnKind::Compact, a2)
}

/// The natural width of every column.
pub open spec fn natural_widths(m: Seq<ColumnMetrics>) -> Seq<usize> {
    Seq::new(m.len(), |i: int| natural_width(m[i]))
}

/// The floor of every column.
pub open spec fn floors_of(m: Seq<ColumnMetrics>) -> Seq<usize> {
    Seq::new(m.len(), |i: int| column_floor(m[i]))
}

/// The minimum width for every one of `n` columns.
pub open spec fn minimums(n: nat) -> Seq<usize> {
    Seq::new(n, |i: int| MIN_COLUMN_WIDTH)
}

/// The column widths for `available` cells of content: the natural widths
/// when they fit or nothing bounds them; none when even the minimum widths do
/// not fit; else the natural widths shrunk down to the floors, the floors
/// themselves first shrunk toward the minimum when they do not fit; none when
/// the floors still do not fit.
pub open spec fn column_widths(m: Seq<ColumnMetrics>, available: Option<usize>) -> Option<
    Seq<usize>,
> {
    let widths = natural_widths(m);
    match available {
        None => Some(widths),
        Some(max_width) => if max_width < m.len() * MIN_COLUMN_WIDTH {
            None
        } else {
            let f0 = floors_of(m);
            let floors = if total(f0) > max_width {
                shrink_all(f0, minimums(m.len()), m, (total(f0) - max_width) as nat).0
            } else {
                f0
            };
            if total(widths) > max_width {
                let (w, left) = shrink_all(widths, floors, m, (total(widths) - max_width) as nat);
                if left > 0 {
                    None
                } else {
                    Some(w)
                }
            } else {
                Some(widths)
            }
        },
    }
}

/// A total counts its parts: a prefix totals no more than the whole.
pub proof fn lemma_total_prefix(s: Seq<usize>, i: int)
    requires
        0 <= i <= s.len(),
    ensures
        total(s.take(i)) <= total(s),
        total(s.take(i)) >= 0,
        i < s.len() ==> total(s.take(i + 1)) == total(s.take(i)) + s[i],
    decreases s.len(),
{
    if i < s.len() {
        assert(s.take(i + 1).drop_last() =~= s.take(i));
        if i + 1 < s.len() {
            lemma_total_prefix(s.drop_last(), i);
            lemma_total_prefix(s.drop_last(), i + 1);
            assert(s.drop_last().take(i) =~= s.take(i));
            assert(s.drop_last().take(i + 1) =~= s.take(i + 1));
        } else {
            assert(s.take(i + 1) =~= s);
            lemma_total_prefix(s.drop_last(), i);
            assert(s.drop_last().take(i) =~= s.take(i));
            assert(s.drop_last().take(s.drop_last().len() as int) =~= s.drop_last());
        }
    } else {
        assert(s.take(i) =~= s);
        if s.len() > 0 {
            lemma_total_prefix(s.drop_last(), s.len() - 1);
            assert(s.drop_last().take(s.len() - 1) =~= s.drop_last());
        }
    }
}

/// Taking one cell from a column lowers the total by one.
pub proof fn lemma_total_update(s: Seq<usize>, i: int, v: usize)
    requires
        0 <= i < s.len(),
    ensures
        total(s.update(i, v)) == total(s) - s[i] + v,
    decreases s.len(),
{
    if i < s.len() - 1 {
        lemma_total_update(s.drop_last(), i, v);
        assert(s.update(i, v).drop_last() =~= s.drop_last().update(i, v));
    } else {
        assert(s.update(i, v).drop_last() =~= s.drop_last());
    }
}

/// Totals are monotone in the parts.
pub proof fn lemma_total_le(a: Seq<usize>, b: Seq<usize>)
    requires
        a.len() == b.len(),
        forall|i: int| 0 <= i < a.len() ==> a[i] <= b[i],
    ensures
        total(a) <= total(b),
    decreases a.len(),
{
    if a.len() > 0 {
        lemma_total_le(a.drop_last(), b.drop_last());
    }
}

/// A pass takes exactly the cells it reports as taken, each from a column
/// of its kind that stays at or above its floor; when cells are left, every
/// column of that kind is at or below its floor.
pub proof fn lemma_shrink_pass(
    w: Seq<usize>,
    f: Seq<usize>,
    m: Seq<ColumnMetrics>,
    kind: ColumnKind,
    amount: nat,
)
    requires
        w.len() == f.len(),
        w.len() == m.len(),
    ensures
        ({
            let (w2, left) = shrink_pass(w, f, m, kind, amount);
            &&& w2.len() == w.len()
            &&& left <= amount
            &&& total(w2) == total(w) - (amount - left)
            &&& forall|i: int| 0 <= i < w.len() ==> w2[i] <= w[i]
            &&& forall|i: int| 0 <= i < w.len() && w2[i] < w[i] ==> w2[i] >= f[i] && m[i].kind == kind
            &&& left > 0 ==> forall|i: int| 0 <= i < w.len() && m[i].kind == kind ==> w2[i] <= f[i]
        }),
    decreases amount,
{
    if amount > 0 {
        lemma_widest_above_floor(w, f, m, kind, w.len() as int);
        match widest_above_floor(w, f, m, kind, w.len() as int) {
            None => {
                assert forall|i: int| 0 <= i < w.len() && m[i].kind == kind implies w[i] <= f[i] by {
                    assert(!can_shrink(w, f, m, kind, i));
                }
            },
            Some(i) => {
                let w1 = w.update(i, (w[i] - 1) as usize);
                lemma_total_update(w, i, (w[i] - 1) as usize);
                lemma_shrink_pass(w1, f, m, kind, (amount - 1) as nat);
            },
        }
    }
}

/// The three passes take exactly the cells they report as taken, never
/// taking a column below its floor; when cells are left, every column is at
/// or below its floor.
pub proof fn lemma_shrink_all(w: Seq<usize>, f: Seq<usize>, m: Seq<ColumnMetrics>, amount: nat)
    requires
        w.len() == f.len(),
        w.len() == m.len(),
    ensures
        ({
            let (w2, left) = shrink_all(w, f, m, amount);
            &&& w2.len() == w.len()
            &&& left <= amount
            &&& total(w2) == total(w) - (amount - left)
            &&& forall|i: int| 0 <= i < w.len() ==> w2[i] <= w[i]
            &&& forall|i: int| 0 <= i < w.len() && w2[i] < w[i] ==> w2[i] >= f[i]
            &&& left > 0 ==> forall|i: int| 0 <= i < w.len() ==> w2[i] <= f[i]
        }),
{
    let (w1, a1) = shrink_pass(w, f, m, ColumnKind::TokenHeavy, amount);
    lemma_shrink_pass(w, f, m, ColumnKind::TokenHeavy, amount);
    if a1 > 0 {
        let (w2, a2) = shrink_pass(w1, f, m, ColumnKind::Narrative, a1);
        lemma_shrink_pass(w1, f, m, ColumnKind::Narrative, a1);
        if a2 > 0 {
            lemma_shrink_pass(w2, f, m, ColumnKind::Compact, a2);
            let (w3, a3) = shrink_pass(w2, f, m, ColumnKind::Compact, a2);
            assert forall|i: int| 0 <= i < w.len() && a3 > 0 implies w3[i] <= f[i] by {
                match m[i].kind {
                    ColumnKind::TokenHeavy => {},
                    ColumnKind::Narrative => {},
                    ColumnKind::Compact => {},
                }
            }
        }
    }
}

/// Allocated widths fit: whenever widths are given for a bound, they total
/// no more than the bound, there is one per column, and none is below the
/// minimum column width.
pub proof fn lemma_column_widths_fit(m: Seq<ColumnMetrics>, available: Option<usize>)
    ensures
        column_widths(m, available) matches Some(w) ==> {
            &&& w.len() == m.len()
            &&& forall|i: int| 0 <= i < w.len() ==> w[i] >= MIN_COLUMN_WIDTH
            &&& available matches Some(max_width) ==> total(w) <= max_width
        },
{
    let widths = natural_widths(m);
    if let Some(max_width) = available {
        if max_width >= m.len() * MIN_COLUMN_WIDTH {
            let f0 = floors_of(m);
            let floors = if total(f0) > max_width {
                shrink_all(f0, minimums(m.len()), m, (total(f0) - max_width) as nat).0
            } else {
                f0
            };
            if total(f0) > max_width {
                lemma_shrink_all(f0, minimums(m.len()), m, (total(f0) - max_width) as nat);
            }
            assert forall|i: int| 0 <= i < m.len() implies floors[i] >= MIN_COLUMN_WIDTH by {
                assert(f0[i] == column_floor(m[i]));
            }
            if total(widths) > max_width {
                lemma_shrink_all(widths, floors, m, (total(widths) - max_width) as nat);
                let (w, left) = shrink_all(widths, floors, m, (total(widths) - max_width) as nat);
                assert forall|i: int| 0 <= i < w.len() implies w[i] >= MIN_COLUMN_WIDTH by {
                    assert(widths[i] == natural_width(m[i]));
                }
            }
        }
    }
}

fn natural_width_of(m: &ColumnMetrics) -> (r: usize)
    ensures
        r == natural_width(*m),
{
    if m.max_width >= MIN_COLUMN_WIDTH {
        m.max_width
    } else {
        MIN_COLUMN_WIDTH
    }
}

/// Sum of `v`, known not to overflow.
fn sum_widths(v: &Vec<usize>) -> (r: usize)
    requires
        total(v@) <= usize::MAX,
    ensures
        r == total(v@),
{
    let mut s: usize = 0;
    let mut i: usize = 0;
    while i < v.len()
        invariant
            i <= v.len(),
            total(v@) <= usize::MAX,
            s == total(v@.take(i as int)),
        decreases v.len() - i,
    {
        proof {
            lemma_total_prefix(v@, i as int);
            lemma_total_prefix(v@, i + 1);
        }
        s = s + v[i];
        i = i + 1;
    }
    assert(v@.take(v.len() as int) =~= v@);
    s
}

/// The column widths for `available_width` cells of content
/// (`column_widths`); `None` when the table cannot be laid out as columns.
pub fn compute_column_widths(metrics: &[ColumnMetrics], available_width: Option<usize>) -> (r:
    Option<Vec<usize>>)
    requires
        total(natural_widths(metrics@)) <= usize::MAX,
    ensures
        match r {
            Some(w) => column_widths(metrics@, available_width) == Some(w@),
            None => column_widths(metrics@, available_width) is None,
        },
{
    let mut widths: Vec<usize> = Vec::new();
    let mut i: usize = 0;
    while i < metrics.len()
        invariant
            i <= metrics.len(),
            widths@ =~= natural_widths(metrics@).take(i as int),
        decreases metrics.len() - i,
    {
        widths.push(natural_width_of(&metrics[i]));
        i = i + 1;
    }
    assert(widths@ =~= natural_widths(metrics@));
    let max_width = match available_width {
        None => return Some(widths),
        Some(w) => w,
    };
    match metrics.len().checked_mul(MIN_COLUMN_WIDTH) {
        None => return None,
        Some(least) => {
            if max_width < least {
                return None;
            }
        },
    }
    let mut floors: Vec<usize> = Vec::new();
    let mut minimum: Vec<usize> = Vec::new();
    let mut i: usize = 0;
    while i < metrics.len()
        invariant
            i <= metrics.len(),
            floors@ =~= floors_of(metrics@).take(i as int),
            minimum@ =~= minimums(metrics@.len()).take(i as int),
        decreases metrics.len() - i,
    {
        floors.push(preferred_column_floor(&metrics[i]));
        minimum.push(MIN_COLUMN_WIDTH);
        i = i + 1;
    }
    assert(floors@ =~= floors_of(metrics@));
    assert(minimum@ =~= minimums(metrics@.len()));
    proof {
        lemma_total_le(floors@, widths@);
    }
    let floor_total = sum_widths(&floors);
    if floor_total > max_width {
        shrink_columns(&mut floors, minimum.as_slice(), metrics, floor_total - max_width);
    }
    let total_width = sum_widths(&widths);
    if total_width > max_width {
        let left = shrink_columns(&mut widths, floors.as_slice(), metrics, total_width - max_width);
        if left > 0 {
            return None;
        }
    }
    Some(widths)
}

// ---------------------------------------------------------------------------
// Measuring columns
// ---------------------------------------------------------------------------

/// The widest of the tokens, by display width; 0 without tokens.
pub open spec fn max_token_width(ts: Seq<Seq<char>>) -> nat
    decreases ts.len(),
{
    if ts.len() == 0 {
        0
    } else {
        let w = str_width(ts.last()) as nat;
        let m = max_token_width(ts.drop_last());
        if w > m {
            w
        } else {
            m
        }
    }
}

/// The number of tokens at least 20 columns wide.
pub open spec fn long_count(ts: Seq<Seq<char>>) -> nat
    decreases ts.len(),
{
    if ts.len() == 0 {
        0
    } else {
        long_count(ts.drop_last()) + if str_width(ts.last()) >= 20 {
            1nat
        } else {
            0nat
        }
    }
}

/// The facts of a cell's tokens: how many, the widest, how many are long.
fn token_facts(text: &str) -> (r: (usize, usize, usize))
    ensures
        r.0 == tokens(text@).len(),
        r.1 == max_token_width(tokens(text@)),
        r.2 == long_count(tokens(text@)),
{
    let v = chars_of(text);
    let mut pos: usize = 0;
    let mut count: usize = 0;
    let mut widest: usize = 0;
    let mut long: usize = 0;
    let ghost mut done: Seq<Seq<char>> = Seq::empty();
    assert(v@.skip(0) =~= v@);
    loop
        invariant
            v@ == text@,
            pos <= v.len(),
            tokens(v@) == done + tokens(v@.skip(pos as int)),
            count == done.len(),
            count <= pos,
            widest == max_token_width(done),
            long == long_count(done),
            long <= count,
        ensures
            tokens(text@) == done,
            count == done.len(),
            widest == max_token_width(done),
            long == long_count(done),
        decreases v.len() - pos,
    {
        match next_token(&v, pos) {
            None => {
                assert(done + tokens(v@.skip(pos as int)) =~= done);
                break;
            },
            Some((a, b)) => {
                let token = string_of(&v, a, b);
                let w = display_width(token.as_str());
                proof {
                    let t = v@.subrange(a as int, b as int);
                    assert(done.push(t).drop_last() =~= done);
                    assert(done + tokens(v@.skip(pos as int)) =~= done.push(t) + tokens(
                        v@.skip(b as int),
                    ));
                    done = done.push(t);
                }
                if w > widest {
                    widest = w;
                }
                if w >= 20 {
                    long = long + 1;
                }
                count = count + 1;
                pos = b;
            },
        }
    }
    (count, widest, long)
}

/// The display width of the longest whitespace-separated token.
pub fn longest_token_width(text: &str) -> (r: usize)
    ensures
        r == max_token_width(tokens(text@)),
{
    let (_, widest, _) = token_facts(text);
    widest
}

/// The text of a cell.
pub fn line_text(cell: &str) -> (r: String)
    ensures
        r@ == cell@,
{
    owned(cell)
}

/// A row cut or padded with empty cells to `column_count` cells.
pub fn normalize_row(cells: &mut Vec<String>, column_count: usize)
    ensures
        final(cells)@.len() == column_count,
        forall|i: int|
            0 <= i < column_count ==> #[trigger] final(cells)@[i]@ == if i < old(cells)@.len() {
                old(cells)@[i]@
            } else {
                Seq::<char>::empty()
            },
{
    if cells.len() > column_count {
        cells.truncate(column_count);
    }
    while cells.len() < column_count
        invariant
            cells@.len() <= column_count,
            cells@.len() <= old(cells)@.len() ==> cells@.len() == (if old(cells)@.len()
                <= column_count {
                old(cells)@.len()
            } else {
                column_count as nat
            }),
            forall|i: int|
                0 <= i < cells@.len() ==> #[trigger] cells@[i]@ == if i < old(cells)@.len() {
                    old(cells)@[i]@
                } else {
                    Seq::<char>::empty()
                },
        decreases column_count - cells.len(),
    {
        cells.push(String::new());
    }
}

/// The cells of column `c`.
pub open spec fn column_cells(rows: Seq<Vec<String>>, c: int) -> Seq<Seq<char>> {
    rows.map_values(|r: Vec<String>| r@[c]@)
}

pub open spec fn max_of(a: nat, b: nat) -> nat {
    if a >= b {
        a
    } else {
        b
    }
}

/// The widest of the header and the first `n` cells.
pub open spec fn widest_cell(h: Seq<char>, body: Seq<Seq<char>>, n: int) -> nat
    decreases n,
{
    if n <= 0 {
        str_width(h) as nat
    } else {
        max_of(widest_cell(h, body, n - 1), str_width(body[n - 1]) as nat)
    }
}

/// The widest token of the first `n` cells.
pub open spec fn widest_body_token(body: Seq<Seq<char>>, n: int) -> nat
    decreases n,
{
    if n <= 0 {
        0
    } else {
        max_of(widest_body_token(body, n - 1), max_token_width(tokens(body[n - 1])))
    }
}

/// The long tokens of the first `n` cells.
pub open spec fn long_tokens(body: Seq<Seq<char>>, n: int) -> nat
    decreases n,
{
    if n <= 0 {
        0
    } else {
        long_tokens(body, n - 1) + long_count(tokens(body[n - 1]))
    }
}

/// The tokens of the first `n` cells.
pub open spec fn words(body: Seq<Seq<char>>, n: int) -> nat
    decreases n,
{
    if n <= 0 {
        0
    } else {
        words(body, n - 1) + tokens(body[n - 1]).len()
    }
}

/// The cells with a token among the first `n`.
pub open spec fn worded_cells(body: Seq<Seq<char>>, n: int) -> nat
    decreases n,
{
    if n <= 0 {
        0
    } else {
        worded_cells(body, n - 1) + if tokens(body[n - 1]).len() > 0 {
            1nat
        } else {
            0nat
        }
    }
}

/// The display width of the cells with a token among the first `n`.
pub open spec fn worded_width(body: Seq<Seq<char>>, n: int) -> nat
    decreases n,
{
    if n <= 0 {
        0
    } else {
        worded_width(body, n - 1) + if tokens(body[n - 1]).len() > 0 {
            str_width(body[n - 1]) as nat
        } else {
            0nat
        }
    }
}

/// What a column mostly holds: token-heavy when long tokens are at least
/// as many as the others; narrative when its cells average four words or
/// 28 columns (the header's when no cell has a word); compact otherwise.
pub open spec fn column_kind(h: Seq<char>, body: Seq<Seq<char>>) -> ColumnKind {
    let n = body.len() as int;
    let long = long_tokens(body, n);
    let count = words(body, n);
    let cells = worded_cells(body, n);
    let narrative = if cells == 0 {
        tokens(h).len() >= 4 || str_width(h) >= 28
    } else {
        words(body, n) >= 4 * cells || worded_width(body, n) >= 28 * cells
    };
    if long > 0 && long >= (if count >= long {
        count - long
    } else {
        0
    }) {
        ColumnKind::TokenHeavy
    } else if narrative {
        ColumnKind::Narrative
    } else {
        ColumnKind::Compact
    }
}

/// The measurements of a column with header `h` and body cells `body`.
pub open spec fn column_metrics(h: Seq<char>, body: Seq<Seq<char>>) -> ColumnMetrics {
    ColumnMetrics {
        max_width: widest_cell(h, body, body.len() as int) as usize,
        header_token_width: max_token_width(tokens(h)) as usize,
        body_token_width: widest_body_token(body, body.len() as int) as usize,
        kind: column_kind(h, body),
    }
}

proof fn lemma_widest_fits(h: Seq<char>, body: Seq<Seq<char>>, n: int)
    ensures
        widest_cell(h, body, n) <= usize::MAX,
    decreases n,
{
    if n > 0 {
        lemma_widest_fits(h, body, n - 1);
    }
}

proof fn lemma_token_width_fits(ts: Seq<Seq<char>>)
    ensures
        max_token_width(ts) <= usize::MAX,
    decreases ts.len(),
{
    if ts.len() > 0 {
        lemma_token_width_fits(ts.drop_last());
    }
}

proof fn lemma_body_token_fits(body: Seq<Seq<char>>, n: int)
    ensures
        widest_body_token(body, n) <= usize::MAX,
    decreases n,
{
    if n > 0 {
        lemma_body_token_fits(body, n - 1);
        lemma_token_width_fits(tokens(body[n - 1]));
    }
}

proof fn lemma_step_bound(acc: int, x: int, i: int)
    requires
        0 <= acc <= i * 0x1_0000_0000_0000_0000,
        0 <= x < 0x1_0000_0000_0000_0000,
        0 <= i,
    ensures
        acc + x <= (i + 1) * 0x1_0000_0000_0000_0000,
{
    assert((i + 1) * 0x1_0000_0000_0000_0000 == i * 0x1_0000_0000_0000_0000
        + 0x1_0000_0000_0000_0000) by (nonlinear_arith);
}

proof fn lemma_bound_fits(i: int)
    requires
        0 <= i <= usize::MAX,
    ensures
        i * 0x1_0000_0000_0000_0000 <= 0xffff_ffff_ffff_ffff_0000_0000_0000_0000,
{
    assert(i * 0x1_0000_0000_0000_0000 <= 0xffff_ffff_ffff_ffff * 0x1_0000_0000_0000_0000)
        by (nonlinear_arith)
        requires
            i <= 0xffff_ffff_ffff_ffff,
            0 <= i,
    ;
}

/// The measurements of column `column` (`column_metrics`).
fn column_metrics_of(header: &Vec<String>, rows: &Vec<Vec<String>>, column: usize) -> (r:
    ColumnMetrics)
    requires
        column < header.len(),
        forall|i: int| 0 <= i < rows.len() ==> column < (#[trigger] rows@[i])@.len(),
    ensures
        r == column_metrics(header@[column as int]@, column_cells(rows@, column as int)),
{
    let ghost body = column_cells(rows@, column as int);
    let ghost h = header@[column as int]@;
    let header_text = line_text(header[column].as_str());
    let (header_words, header_token_width, _) = token_facts(header_text.as_str());
    let header_width = display_width(header_text.as_str());
    let mut max_width: usize = header_width;
    let mut body_token_width: usize = 0;
    let mut long: u128 = 0;
    let mut count: u128 = 0;
    let mut cells: u128 = 0;
    let mut cell_width: u128 = 0;
    let mut i: usize = 0;
    while i < rows.len()
        invariant
            i <= rows.len(),
            column < header.len(),
            forall|k: int| 0 <= k < rows.len() ==> column < (#[trigger] rows@[k])@.len(),
            body == column_cells(rows@, column as int),
            max_width == widest_cell(h, body, i as int),
            body_token_width == widest_body_token(body, i as int),
            long == long_tokens(body, i as int),
            count == words(body, i as int),
            cells == worded_cells(body, i as int),
            cell_width == worded_width(body, i as int),
            long <= i * 0x1_0000_0000_0000_0000,
            count <= i * 0x1_0000_0000_0000_0000,
            cells <= i,
            cell_width <= i * 0x1_0000_0000_0000_0000,
        decreases rows.len() - i,
    {
        let cell = rows[i][column].as_str();
        assert(body[i as int] == cell@);
        let w = display_width(cell);
        if w > max_width {
            max_width = w;
        }
        let (n_words, widest, n_long) = token_facts(cell);
        if widest > body_token_width {
            body_token_width = widest;
        }
        proof {
            lemma_bound_fits(i as int);
            lemma_step_bound(long as int, n_long as int, i as int);
            lemma_step_bound(count as int, n_words as int, i as int);
            lemma_step_bound(cell_width as int, w as int, i as int);
        }
        long = long + n_long as u128;
        count = count + n_words as u128;
        if n_words > 0 {
            cells = cells + 1;
            cell_width = cell_width + w as u128;
        }
        i = i + 1;
    }
    proof {
        lemma_bound_fits(rows.len() as int);
        lemma_widest_fits(h, body, body.len() as int);
        lemma_token_width_fits(tokens(h));
        lemma_body_token_fits(body, body.len() as int);
    }
    let rest = if count >= long {
        count - long
    } else {
        0
    };
    let narrative = if cells == 0 {
        header_words >= 4 || header_width >= 28
    } else {
        count >= 4 * cells || cell_width >= 28 * cells
    };
    let kind = if long > 0 && long >= rest {
        ColumnKind::TokenHeavy
    } else if narrative {
        ColumnKind::Narrative
    } else {
        ColumnKind::Compact
    };
    ColumnMetrics { max_width, header_token_width, body_token_width, kind }
}

/// The measurements of each of the `column_count` columns of a table whose
/// rows have been cut or padded to that many cells.
pub fn collect_metrics(header: &Vec<String>, rows: &Vec<Vec<String>>, column_count: usize) -> (r:
    Vec<ColumnMetrics>)
    requires
        header.len() == column_count,
        forall|i: int| 0 <= i < rows.len() ==> (#[trigger] rows@[i])@.len() == column_count,
    ensures
        r@.len() == column_count,
        forall|c: int|
            0 <= c < column_count ==> #[trigger] r@[c] == column_metrics(
                header@[c]@,
                column_cells(rows@, c),
            ),
{
    let mut out: Vec<ColumnMetrics> = Vec::new();
    let mut c: usize = 0;
    while c < column_count
        invariant
            c <= column_count,
            header.len() == column_count,
            forall|i: int| 0 <= i < rows.len() ==> (#[trigger] rows@[i])@.len() == column_count,
            out@.len() == c,
            forall|k: int|
                0 <= k < c ==> #[trigger] out@[k] == column_metrics(
                    header@[k]@,
                    column_cells(rows@, k),
                ),
        decreases column_count - c,
    {
        out.push(column_metrics_of(header, rows, c));
        c = c + 1;
    }
    out
}

// ---------------------------------------------------------------------------
// Choosing records over columns
// ---------------------------------------------------------------------------

/// The number of columns a row is read over: the shortest of its cells,
/// the widths and the metrics.
pub open spec fn zip_len(cells: nat, widths: nat, metrics: nat) -> nat {
    let a = if cells <= widths {
        cells
    } else {
        widths
    };
    if a <= metrics {
        a
    } else {
        metrics
    }
}

/// Whether a cell breaks a token at its width in a way that matters: a
/// compact column with a token wider than the column, or a narrow
/// token-heavy column with one.
pub open spec fn fragments(cell: Seq<char>, width: usize, m: ColumnMetrics) -> bool {
    let wide = max_token_width(tokens(cell)) > width;
    match m.kind {
        ColumnKind::Compact => wide,
        ColumnKind::TokenHeavy => width < MIN_SCANNABLE_EXPANSIVE_WIDTH && wide,
        ColumnKind::Narrative => false,
    }
}

/// Whether a narrow expansive cell wraps to four lines or more.
pub open spec fn starves(width: usize, m: ColumnMetrics, wrapped: usize) -> bool {
    m.kind != ColumnKind::Compact && width < MIN_SCANNABLE_EXPANSIVE_WIDTH && wrapped >= 4
}

/// The starving cells among the first `n` of a row.
pub open spec fn starved_count(
    widths: Seq<usize>,
    m: Seq<ColumnMetrics>,
    wrapped: Seq<usize>,
    n: int,
) -> nat
    decreases n,
{
    if n <= 0 {
        0
    } else {
        starved_count(widths, m, wrapped, n - 1) + if starves(widths[n - 1], m[n - 1], wrapped[n - 1]) {
            1nat
        } else {
            0nat
        }
    }
}

/// Whether a row reads badly as columns: a cell fragments, or two cells
/// starve.
pub open spec fn row_affected(
    cells: Seq<String>,
    widths: Seq<usize>,
    m: Seq<ColumnMetrics>,
    wrapped: Seq<usize>,
) -> bool {
    let n = zip_len(cells.len(), widths.len(), m.len()) as int;
    (exists|c: int| 0 <= c < n && #[trigger] fragments(cells[c]@, widths[c], m[c]))
        || starved_count(widths, m, wrapped, n) >= 2
}

/// The affected rows among the first `n`.
pub open spec fn affected_rows(
    rows: Seq<Vec<String>>,
    widths: Seq<usize>,
    m: Seq<ColumnMetrics>,
    wrapped: Seq<Vec<usize>>,
    n: int,
) -> nat
    decreases n,
{
    if n <= 0 {
        0
    } else {
        affected_rows(rows, widths, m, wrapped, n - 1) + if row_affected(
            rows[n - 1]@,
            widths,
            m,
            wrapped[n - 1]@,
        ) {
            1nat
        } else {
            0nat
        }
    }
}

/// How many affected rows make a table read better as records: the one row
/// of a single-row table; else a third of the rows, at least two.
pub open spec fn record_threshold(n: nat) -> nat {
    if n == 1 {
        1
    } else {
        let third = (n + 2) / 3;
        if third >= 2 {
            third
        } else {
            2
        }
    }
}

/// Whether the table should be shown as records rather than columns.
pub open spec fn records_spec(
    rows: Seq<Vec<String>>,
    widths: Seq<usize>,
    m: Seq<ColumnMetrics>,
    wrapped: Seq<Vec<usize>>,
) -> bool {
    rows.len() > 0 && affected_rows(rows, widths, m, wrapped, rows.len() as int) >= record_threshold(
        rows.len(),
    )
}

fn row_is_affected(cells: &Vec<String>, widths: &[usize], metrics: &[ColumnMetrics], wrapped: &Vec<
    usize,
>) -> (r: bool)
    requires
        wrapped.len() >= zip_len(cells.len() as nat, widths.len() as nat, metrics.len() as nat),
    ensures
        r == row_affected(cells@, widths@, metrics@, wrapped@),
{
    let n0 = if cells.len() <= widths.len() {
        cells.len()
    } else {
        widths.len()
    };
    let n = if n0 <= metrics.len() {
        n0
    } else {
        metrics.len()
    };
    let mut fragmented = false;
    let mut starved: usize = 0;
    let mut c: usize = 0;
    while c < n
        invariant
            c <= n,
            n == zip_len(cells.len() as nat, widths.len() as nat, metrics.len() as nat),
            n <= cells.len() && n <= widths.len() && n <= metrics.len() && n <= wrapped.len(),
            fragmented == exists|k: int| 0 <= k < c && #[trigger] fragments(cells@[k]@, widths@[k], metrics@[k]),
            starved == starved_count(widths@, metrics@, wrapped@, c as int),
            starved <= c,
        decreases n - c,
    {
        let widest = longest_token_width(cells[c].as_str());
        let wide = widest > widths[c];
        let f = match metrics[c].kind {
            ColumnKind::Compact => wide,
            ColumnKind::TokenHeavy => widths[c] < MIN_SCANNABLE_EXPANSIVE_WIDTH && wide,
            ColumnKind::Narrative => false,
        };
        assert(f == fragments(cells@[c as int]@, widths@[c as int], metrics@[c as int]));
        if f {
            fragmented = true;
        }
        if metrics[c].kind != ColumnKind::Compact && widths[c] < MIN_SCANNABLE_EXPANSIVE_WIDTH
            && wrapped[c] >= 4 {
            starved = starved + 1;
        }
        c = c + 1;
    }
    fragmented || starved >= 2
}

/// Whether the table should be shown as records (`records_spec`); the
/// wrapped line count of each body cell at its column's width is given.
pub fn should_render_records(
    rows: &Vec<Vec<String>>,
    widths: &[usize],
    metrics: &[ColumnMetrics],
    wrapped: &Vec<Vec<usize>>,
) -> (r: bool)
    requires
        wrapped.len() == rows.len(),
        forall|i: int|
            0 <= i < rows.len() ==> (#[trigger] wrapped@[i])@.len() >= zip_len(
                rows@[i]@.len(),
                widths@.len(),
                metrics@.len(),
            ),
    ensures
        r == records_spec(rows@, widths@, metrics@, wrapped@),
{
    if rows.len() == 0 {
        return false;
    }
    let mut affected: usize = 0;
    let mut i: usize = 0;
    while i < rows.len()
        invariant
            i <= rows.len(),
            wrapped.len() == rows.len(),
            forall|k: int|
                0 <= k < rows.len() ==> (#[trigger] wrapped@[k])@.len() >= zip_len(
                    rows@[k]@.len(),
                    widths@.len(),
                    metrics@.len(),
                ),
            affected == affected_rows(rows@, widths@, metrics@, wrapped@, i as int),
            affected <= i,
        decreases rows.len() - i,
    {
        assert(wrapped@[i as int]@.len() >= zip_len(rows@[i as int]@.len(), widths@.len(), metrics@.len()));
        if row_is_affected(&rows[i], widths, metrics, &wrapped[i]) {
            affected = affected + 1;
        }
        i = i + 1;
    }
    let n = rows.len();
    let threshold = if n == 1 {
        1
    } else {
        let third = n / 3 + if n % 3 == 0 {
            0
        } else {
            1
        };
        if third >= 2 {
            third
        } else {
            2
        }
    };
    assert(threshold == record_threshold(n as nat));
    affected >= threshold
}

} // verus!
